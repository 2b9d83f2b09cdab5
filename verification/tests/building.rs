use fj_kernel::builder::cycle::CycleBuilder;
use fj_kernel::builder::surface::SurfaceBuilder;
use fj_kernel::geometry::{GlobalPath, SurfaceGeometry, SurfacePath};
use fj_kernel::math::{Line, Point, Vector};
use fj_kernel::objects::{
    Curve, GlobalVertex, Objects, Surface, SurfaceId, SurfaceVertex, Vertex,
};
use fj_kernel::partial::cache::FullToPartialCache;
use fj_kernel::partial::curve::PartialCurve;
use fj_kernel::partial::cycle::PartialCycle;
use fj_kernel::partial::face::PartialFace;
use fj_kernel::partial::sketch::PartialSketch;
use fj_kernel::partial::surface::PartialSurface;
use fj_kernel::partial::vertex::{PartialGlobalVertex, PartialSurfaceVertex, PartialVertex};
use fj_kernel::partial::{
    BuildError, Entity, Field, Partials, SurfaceHandle, VertexHandle,
};
use fj_math::Scalar;

fn point<const D: usize>(coords: [f64; D]) -> Point<D> {
    Point {
        coords: coords.map(Scalar::from_f64),
    }
}

fn vector<const D: usize>(components: [f64; D]) -> Vector<D> {
    Vector {
        components: components.map(Scalar::from_f64),
    }
}

fn plane() -> SurfaceGeometry {
    SurfaceGeometry {
        u: GlobalPath::Line(Line {
            origin: point([0., 0., 1.]),
            direction: vector([2., 0., 0.]),
        }),
        v: vector([0., 3., 0.]),
    }
}

fn path() -> SurfacePath {
    SurfacePath::Line(Line {
        origin: point([1., 1.]),
        direction: vector([1., 2.]),
    })
}

/// A vertex at curve position 0.5 on a curve with a path, in a surface with
/// geometry; its surface position and global position are not set.
fn vertex_with_curve_position(partials: &mut Partials) -> VertexHandle {
    let surface = partials.insert_surface(PartialSurface {
        geometry: Some(plane()),
    });
    let curve = partials.insert_curve(PartialCurve {
        path: Some(path()),
        surface,
    });
    let global_form = partials.insert_global_vertex(PartialGlobalVertex { position: None });
    let surface_form = partials.insert_surface_vertex(PartialSurfaceVertex {
        position: None,
        surface,
        global_form,
    });
    partials.insert_vertex(PartialVertex {
        position: Some(point([0.5])),
        curve,
        surface_form,
    })
}

fn missing(entity: Entity, field: Field) -> BuildError {
    BuildError::Missing { entity, field }
}

#[test]
fn surface_is_built_from_its_geometry() {
    let mut objects = Objects::new();
    let partial = PartialSurface {
        geometry: Some(plane()),
    };
    assert_eq!(partial.try_build(&mut objects), Ok(Surface { geometry: plane() }));
    assert_eq!(partial.build(&mut objects), Surface { geometry: plane() });
    assert_eq!(objects.surfaces.len(), 0);
    let empty = PartialSurface { geometry: None };
    assert_eq!(
        empty.try_build(&mut objects),
        Err(missing(Entity::Surface, Field::Geometry))
    );
}

#[test]
fn global_vertex_is_built_from_its_position() {
    let mut objects = Objects::new();
    let partial = PartialGlobalVertex {
        position: Some(point([1., 2., 3.])),
    };
    assert_eq!(
        partial.try_build(&mut objects),
        Ok(GlobalVertex {
            position: point([1., 2., 3.])
        })
    );
    assert_eq!(
        partial.build(&mut objects),
        GlobalVertex {
            position: point([1., 2., 3.])
        }
    );
    assert_eq!(
        PartialGlobalVertex::default().try_build(&mut objects),
        Err(missing(Entity::GlobalVertex, Field::Position))
    );
    let mut partials = Partials::new();
    let h = partials.insert_global_vertex(PartialGlobalVertex { position: None });
    assert_eq!(
        partials.build_global_vertex(h, &mut objects),
        Err(missing(Entity::GlobalVertex, Field::Position))
    );
    assert_eq!(objects.global_vertices.len(), 0);
}

#[test]
fn vertex_with_only_a_curve_position_is_built() {
    let mut partials = Partials::new();
    let mut objects = Objects::new();
    let h = vertex_with_curve_position(&mut partials);
    let id = partials.build_vertex(h, &mut objects).unwrap();

    let vertex = objects.vertices[id.index];
    assert_eq!(vertex.position, point([0.5]));
    let curve = objects.curves[vertex.curve.index];
    assert_eq!(curve.path, path());
    let on_surface = path().point_from_path_coords(&point([0.5])).unwrap();
    assert_eq!(on_surface, point([1.5, 2.]));
    let form = objects.surface_vertices[vertex.surface_form.index];
    assert_eq!(form.position, on_surface);
    assert_eq!(form.surface, curve.surface);
    let in_space = plane().point_from_surface_coords(&on_surface).unwrap();
    assert_eq!(in_space, point([3., 6., 1.]));
    assert_eq!(objects.global_vertices[form.global_form.index].position, in_space);

    // What was inferred is written back to the partial objects.
    let partial = partials.read_vertex(h);
    let partial_form = partials.read_surface_vertex(partial.surface_form);
    assert_eq!(partial_form.position, Some(on_surface));
    assert_eq!(
        partials.read_global_vertex(partial_form.global_form).position,
        Some(in_space)
    );
}

#[test]
fn positions_that_are_set_are_not_inferred() {
    let mut partials = Partials::new();
    let mut objects = Objects::new();
    let h = vertex_with_curve_position(&mut partials);
    let partial = partials.read_vertex(h);
    let mut form = partials.read_surface_vertex(partial.surface_form);
    form.position = Some(point([7., 7.]));
    partials.write_surface_vertex(partial.surface_form, form);
    partials.write_global_vertex(
        form.global_form,
        PartialGlobalVertex {
            position: Some(point([9., 9., 9.])),
        },
    );
    let id = partials.build_vertex(h, &mut objects).unwrap();
    let built = objects.surface_vertices[objects.vertices[id.index].surface_form.index];
    assert_eq!(built.position, point([7., 7.]));
    assert_eq!(
        objects.global_vertices[built.global_form.index].position,
        point([9., 9., 9.])
    );
}

#[test]
fn vertex_without_position_is_not_built() {
    let mut partials = Partials::new();
    let mut objects = Objects::new();
    let h = vertex_with_curve_position(&mut partials);
    let mut partial = partials.read_vertex(h);
    partial.position = None;
    partials.write_vertex(h, partial);
    assert_eq!(
        partials.build_vertex(h, &mut objects),
        Err(missing(Entity::Vertex, Field::Position))
    );
    assert_eq!(objects.curves.len(), 0);
    assert_eq!(objects.surfaces.len(), 0);
}

#[test]
fn curve_without_path_is_not_built() {
    let mut partials = Partials::new();
    let mut objects = Objects::new();
    let h = vertex_with_curve_position(&mut partials);
    let curve = partials.read_vertex(h).curve;
    let mut partial = partials.read_curve(curve);
    partial.path = None;
    partials.write_curve(curve, partial);
    assert_eq!(
        partials.build_vertex(h, &mut objects),
        Err(missing(Entity::Curve, Field::Path))
    );
    assert_eq!(
        partials.build_curve(curve, &mut objects),
        Err(missing(Entity::Curve, Field::Path))
    );
    assert_eq!(objects.surfaces.len(), 0);
}

#[test]
fn surface_without_geometry_is_not_built() {
    let mut partials = Partials::new();
    let mut objects = Objects::new();
    let h = vertex_with_curve_position(&mut partials);
    let surface = partials.read_curve(partials.read_vertex(h).curve).surface;
    partials.write_surface(surface, PartialSurface { geometry: None });
    assert_eq!(
        partials.build_surface(surface, &mut objects),
        Err(missing(Entity::Surface, Field::Geometry))
    );
    assert_eq!(
        partials.build_vertex(h, &mut objects),
        Err(missing(Entity::Surface, Field::Geometry))
    );
}

#[test]
fn surface_vertex_without_position_is_not_built() {
    let mut partials = Partials::new();
    let mut objects = Objects::new();
    let h = vertex_with_curve_position(&mut partials);
    let form = partials.read_vertex(h).surface_form;
    assert_eq!(
        partials.build_surface_vertex(form, &mut objects),
        Err(missing(Entity::SurfaceVertex, Field::Position))
    );
    // Not even where the global position is known.
    let global = partials.read_surface_vertex(form).global_form;
    partials.write_global_vertex(
        global,
        PartialGlobalVertex {
            position: Some(point([0., 0., 0.])),
        },
    );
    assert_eq!(
        partials.build_surface_vertex(form, &mut objects),
        Err(missing(Entity::SurfaceVertex, Field::Position))
    );
}

#[test]
fn surface_position_cannot_be_inferred_where_the_path_is_undefined() {
    let mut partials = Partials::new();
    let mut objects = Objects::new();
    let h = vertex_with_curve_position(&mut partials);
    let mut partial = partials.read_vertex(h);
    partial.position = Some(point([f64::INFINITY]));
    partials.write_vertex(h, partial);
    assert_eq!(
        partials.build_vertex(h, &mut objects),
        Err(BuildError::CannotInfer {
            entity: Entity::SurfaceVertex,
            field: Field::Position
        })
    );

    let mut partials = Partials::new();
    let mut objects = Objects::new();
    let h = vertex_with_curve_position(&mut partials);
    let curve = partials.read_vertex(h).curve;
    let mut broken = partials.read_curve(curve);
    broken.path = Some(SurfacePath::Line(Line {
        origin: point([1., 1.]),
        direction: vector([0., 0.]),
    }));
    partials.write_curve(curve, broken);
    assert_eq!(
        partials.build_vertex(h, &mut objects),
        Err(BuildError::CannotInfer {
            entity: Entity::SurfaceVertex,
            field: Field::Position
        })
    );
}

#[test]
fn vertex_on_a_circle_is_built_from_its_curve_position() {
    let mut partials = Partials::new();
    let mut objects = Objects::new();
    let h = vertex_with_curve_position(&mut partials);
    let curve = partials.read_vertex(h).curve;
    let (circle, start) = SurfacePath::circle_from_radius(Scalar::from_f64(2.0)).unwrap();
    assert_eq!(start, point([2., 0.]));
    let mut on_circle = partials.read_curve(curve);
    on_circle.path = Some(circle);
    partials.write_curve(curve, on_circle);
    let mut quarter = partials.read_vertex(h);
    quarter.position = Some(point([std::f64::consts::FRAC_PI_2]));
    partials.write_vertex(h, quarter);

    let id = partials.build_vertex(h, &mut objects).unwrap();
    let vertex = objects.vertices[id.index];
    assert_eq!(vertex.position, point([std::f64::consts::FRAC_PI_2]));
    assert_eq!(objects.curves[vertex.curve.index].path, circle);
    let expected = fj_math::Circle::<2>::from_center_and_radius([0., 0.], Scalar::from_f64(2.0))
        .point_from_circle_coords([std::f64::consts::FRAC_PI_2]);
    let form = objects.surface_vertices[vertex.surface_form.index];
    assert_eq!(fj_math::Point::from(form.position.coords), expected);
    assert!((form.position.coords[0].into_f64()).abs() < 1e-12);
    assert_eq!(form.position.coords[1], Scalar::from_f64(2.0));
    // The global position follows from the surface position.
    let in_space = plane().point_from_surface_coords(&form.position).unwrap();
    assert_eq!(objects.global_vertices[form.global_form.index].position, in_space);
    // What was inferred is the position that the surface form has now.
    let partial_form = partials.read_surface_vertex(partials.read_vertex(h).surface_form);
    assert_eq!(partial_form.position, Some(form.position));
}

#[test]
fn vertices_are_built_where_nothing_is_missing() {
    let mut partials = Partials::new();
    let mut objects = Objects::new();
    let h = vertex_with_curve_position(&mut partials);
    let partial = partials.read_vertex(h);
    let vertex = partial.build(&mut partials, &mut objects);
    assert_eq!(vertex.position, point([0.5]));
    let form = partials.read_surface_vertex(partial.surface_form);
    assert_eq!(form.position, Some(point([1.5, 2.])));
    // The surface form is built already; built by itself, it is the same.
    let again = form.build(&mut partials, &mut objects);
    assert_eq!(again, objects.surface_vertices[vertex.surface_form.index]);
    assert_eq!(again.position, point([1.5, 2.]));
    assert_eq!(
        form.try_build(&mut partials, &mut objects),
        Ok(again)
    );
    assert_eq!(
        partial.try_build(&mut partials, &mut objects),
        Ok(vertex)
    );
    let found = path().point_from_path_coords(&point([0.5]));
    assert_eq!(
        partial.finish(point([0.5]), vertex.curve, found, &mut partials, &mut objects),
        Ok(vertex)
    );
}

#[test]
fn global_position_cannot_be_inferred_where_the_surface_is_undefined() {
    let mut partials = Partials::new();
    let mut objects = Objects::new();
    let h = vertex_with_curve_position(&mut partials);
    let form = partials.read_vertex(h).surface_form;
    let mut partial = partials.read_surface_vertex(form);
    partial.position = Some(point([f64::INFINITY, 0.]));
    partials.write_surface_vertex(form, partial);
    assert_eq!(
        partials.build_surface_vertex(form, &mut objects),
        Err(BuildError::CannotInfer {
            entity: Entity::GlobalVertex,
            field: Field::Position
        })
    );
    assert_eq!(
        partial.infer_global_position(&mut partials),
        Err(BuildError::CannotInfer {
            entity: Entity::GlobalVertex,
            field: Field::Position
        })
    );
}

#[test]
fn what_was_built_is_remembered_until_it_is_written() {
    let mut partials = Partials::new();
    let mut objects = Objects::new();
    let h = vertex_with_curve_position(&mut partials);
    let first = partials.build_vertex(h, &mut objects).unwrap();
    assert_eq!(partials.vertices[h.index].full, Some(first));
    let stored = objects.vertices.len();
    let again = partials.build_vertex(h, &mut objects).unwrap();
    assert_eq!(again, first);
    assert_eq!(objects.vertices.len(), stored);

    let mut partial = partials.read_vertex(h);
    partial.position = Some(point([0.75]));
    partials.write_vertex(h, partial);
    assert_eq!(partials.vertices[h.index].full, None);
    let changed = partials.build_vertex(h, &mut objects).unwrap();
    assert_ne!(changed, first);
    assert_eq!(objects.vertices[changed.index].position, point([0.75]));
    // The old object is still there, and the parts that were not written are
    // shared with it.
    assert_eq!(objects.vertices[first.index].position, point([0.5]));
    assert_eq!(
        objects.vertices[changed.index].curve,
        objects.vertices[first.index].curve
    );
    assert_eq!(
        objects.vertices[changed.index].surface_form,
        objects.vertices[first.index].surface_form
    );
}

#[test]
fn objects_of_the_same_content_are_stored_once() {
    let mut partials = Partials::new();
    let mut objects = Objects::new();
    let a = partials.insert_surface(PartialSurface {
        geometry: Some(plane()),
    });
    let b = partials.insert_surface(PartialSurface {
        geometry: Some(plane()),
    });
    assert_ne!(a, b);
    let first = partials.build_surface(a, &mut objects).unwrap();
    let second = partials.build_surface(b, &mut objects).unwrap();
    assert_eq!(first, second);
    assert_eq!(objects.surfaces.len(), 1);

    let mut other = plane();
    other.v = vector([0., 0., 1.]);
    let c = partials.insert_surface(PartialSurface {
        geometry: Some(other),
    });
    let third = partials.build_surface(c, &mut objects).unwrap();
    assert_ne!(third, first);
    assert_eq!(objects.surfaces.len(), 2);

    assert_eq!(objects.insert_surface(Surface { geometry: other }), third);
    assert_eq!(objects.insert_surface(Surface { geometry: plane() }), first);
    let curve = Curve {
        path: path(),
        surface: first,
    };
    let stored = objects.insert_curve(curve);
    assert_eq!(objects.insert_curve(curve), stored);
    assert_ne!(
        objects.insert_curve(Curve {
            path: path(),
            surface: third
        }),
        stored
    );
    let global = objects.insert_global_vertex(GlobalVertex {
        position: point([1., 2., 3.]),
    });
    assert_eq!(
        objects.insert_global_vertex(GlobalVertex {
            position: point([1., 2., 3.])
        }),
        global
    );
    let form = SurfaceVertex {
        position: point([1., 2.]),
        surface: first,
        global_form: global,
    };
    let stored_form = objects.insert_surface_vertex(form);
    assert_eq!(objects.insert_surface_vertex(form), stored_form);
    let vertex = Vertex {
        position: point([0.]),
        curve: stored,
        surface_form: stored_form,
    };
    let stored_vertex = objects.insert_vertex(vertex);
    assert_eq!(objects.insert_vertex(vertex), stored_vertex);
    assert_eq!(objects.vertices.len(), 1);
}

#[test]
fn xy_plane_is_stored_once() {
    let mut objects = Objects::new();
    let first = objects.xy_plane();
    let second = objects.xy_plane();
    assert_eq!(first, second);
    assert_eq!(objects.surfaces.len(), 1);
    let geometry = objects.surfaces[first.index].geometry;
    assert_eq!(
        geometry.point_from_surface_coords(&point([2., 3.])),
        Some(point([2., 3., 0.]))
    );
}

#[test]
fn partial_vertex_derived_from_a_vertex_builds_to_it() {
    let mut partials = Partials::new();
    let mut objects = Objects::new();
    let h = vertex_with_curve_position(&mut partials);
    let id = partials.build_vertex(h, &mut objects).unwrap();
    let stored = [
        objects.surfaces.len(),
        objects.curves.len(),
        objects.global_vertices.len(),
        objects.surface_vertices.len(),
        objects.vertices.len(),
    ];

    let mut fresh = Partials::new();
    let mut cache = FullToPartialCache::new();
    let derived = fresh.vertex_from_full(id, &mut cache, &objects);
    let partial = fresh.read_vertex(derived);
    let full = objects.vertices[id.index];
    assert_eq!(partial.position, Some(full.position));
    let form = fresh.read_surface_vertex(partial.surface_form);
    assert_eq!(
        form.position,
        Some(objects.surface_vertices[full.surface_form.index].position)
    );
    assert_eq!(
        fresh.read_curve(partial.curve).path,
        Some(objects.curves[full.curve.index].path)
    );
    // The curve and the surface form lie in one surface, as they did.
    assert_eq!(fresh.read_curve(partial.curve).surface, form.surface);
    assert_eq!(fresh.surfaces.len(), 1);

    assert_eq!(fresh.build_vertex(derived, &mut objects), Ok(id));
    assert_eq!(
        stored,
        [
            objects.surfaces.len(),
            objects.curves.len(),
            objects.global_vertices.len(),
            objects.surface_vertices.len(),
            objects.vertices.len(),
        ]
    );
    // Deriving it again gives the same partial object.
    assert_eq!(fresh.vertex_from_full(id, &mut cache, &objects), derived);
    assert_eq!(fresh.vertices.len(), 1);
}

#[test]
fn derived_partial_objects_share_what_the_objects_shared() {
    let mut objects = Objects::new();
    let surface = objects.insert_surface(Surface { geometry: plane() });
    let g0 = objects.insert_global_vertex(GlobalVertex {
        position: point([0., 0., 1.]),
    });
    let g1 = objects.insert_global_vertex(GlobalVertex {
        position: point([2., 0., 1.]),
    });
    let a = objects.insert_surface_vertex(SurfaceVertex {
        position: point([0., 0.]),
        surface,
        global_form: g0,
    });
    let b = objects.insert_surface_vertex(SurfaceVertex {
        position: point([1., 0.]),
        surface,
        global_form: g1,
    });
    let mut partials = Partials::new();
    let mut cache = FullToPartialCache::new();
    let first = partials.surface_vertex_from_full(a, &mut cache, &objects);
    let second = partials.surface_vertex_from_full(b, &mut cache, &objects);
    assert_ne!(first, second);
    let first = partials.read_surface_vertex(first);
    let second = partials.read_surface_vertex(second);
    assert_eq!(first.surface, second.surface);
    assert_ne!(first.global_form, second.global_form);
    assert_eq!(partials.surfaces.len(), 1);
    assert_eq!(
        partials.read_surface(first.surface).geometry,
        Some(plane())
    );
    assert_eq!(partials.build_surface(first.surface, &mut objects), Ok(surface));
    assert_eq!(
        partials.build_global_vertex(second.global_form, &mut objects),
        Ok(g1)
    );
}

#[test]
fn values_are_derived_from_full_objects() {
    let mut objects = Objects::new();
    let mut cache = FullToPartialCache::new();
    let mut partials = Partials::new();
    let surface = Surface { geometry: plane() };
    assert_eq!(
        PartialSurface::from_full(&surface, &mut cache),
        PartialSurface {
            geometry: Some(plane())
        }
    );
    let global = GlobalVertex {
        position: point([1., 2., 3.]),
    };
    assert_eq!(
        PartialGlobalVertex::from_full(&global, &mut cache),
        PartialGlobalVertex {
            position: Some(point([1., 2., 3.]))
        }
    );
    let surface_id = objects.insert_surface(surface);
    let global_id = objects.insert_global_vertex(global);
    let form = SurfaceVertex {
        position: point([4., 5.]),
        surface: surface_id,
        global_form: global_id,
    };
    let partial_form = PartialSurfaceVertex::from_full(&form, &mut cache, &mut partials, &objects);
    assert_eq!(partial_form.position, Some(point([4., 5.])));
    assert_eq!(
        partials.read_surface(partial_form.surface).geometry,
        Some(plane())
    );
    assert_eq!(
        partials.read_global_vertex(partial_form.global_form).position,
        Some(point([1., 2., 3.]))
    );
    let curve = Curve {
        path: path(),
        surface: surface_id,
    };
    let partial_curve = PartialCurve::from_full(&curve, &mut cache, &mut partials, &objects);
    assert_eq!(partial_curve.path, Some(path()));
    assert_eq!(partial_curve.surface, partial_form.surface);
    let curve_id = objects.insert_curve(curve);
    let form_id = objects.insert_surface_vertex(form);
    let vertex = Vertex {
        position: point([0.25]),
        curve: curve_id,
        surface_form: form_id,
    };
    let partial = PartialVertex::from_full(&vertex, &mut cache, &mut partials, &objects);
    assert_eq!(partial.position, Some(point([0.25])));
    assert_eq!(partials.read_curve(partial.curve).surface, partial_form.surface);
    assert_eq!(
        partials.read_surface_vertex(partial.surface_form).surface,
        partial_form.surface
    );
    assert_eq!(partials.curve_from_full(curve_id, &mut cache, &objects), partial.curve);
    assert_eq!(
        partials.global_vertex_from_full(global_id, &mut cache, &objects),
        partial_form.global_form
    );
    assert_eq!(
        partials.surface_from_full(SurfaceId { index: 0 }, &mut cache, &objects),
        partial_form.surface
    );
}

#[test]
fn default_partial_objects_have_nothing_set() {
    let mut partials = Partials::new();
    let curve = PartialCurve::default(&mut partials);
    assert_eq!(curve.path, None);
    assert_eq!(partials.read_surface(curve.surface).geometry, None);
    let vertex = PartialVertex::default(&mut partials);
    assert_eq!(vertex.position, None);
    let form = partials.read_surface_vertex(vertex.surface_form);
    assert_eq!(form.position, None);
    // The curve and the surface form of a default vertex lie in one surface.
    assert_eq!(partials.read_curve(vertex.curve).surface, form.surface);
    assert_ne!(form.surface, curve.surface);
    assert_eq!(partials.read_global_vertex(form.global_form).position, None);
    let other = PartialSurfaceVertex::default(&mut partials);
    assert_eq!(other.position, None);
    assert_ne!(other.surface, form.surface);
    assert_ne!(other.global_form, form.global_form);
    let h = partials.insert_vertex(vertex);
    assert_eq!(partials.read_vertex(h), vertex);
    assert_eq!(partials.vertices[h.index].full, None);
}

#[test]
fn polygon_is_built_into_a_sketch() {
    let mut partials = Partials::new();
    let mut objects = Objects::new();
    let (plane, _) = PartialSurface::plane_from_points([
        point([0., 0., 0.]),
        point([1., 0., 0.]),
        point([0., 1., 0.]),
    ]);
    let surface: SurfaceHandle = partials.insert_surface(plane);
    let points = vec![point([0., 0.]), point([2., 0.]), point([2., 2.])];
    let cycle = PartialCycle::from_poly_chain(surface, &points, &mut partials);
    let face = PartialFace {
        surface: Some(surface),
        exterior: cycle,
        interiors: Vec::new(),
        color: None,
    };
    let sketch = PartialSketch { faces: vec![face] }.build(&mut partials, &mut objects);
    assert_eq!(sketch.faces.len(), 1);
    let exterior = &sketch.faces[0].exterior;
    assert_eq!(exterior.half_edges.len(), 3);
    for (j, id) in exterior.half_edges.iter().enumerate() {
        let next = exterior.half_edges[(j + 1) % 3];
        let edge = objects.half_edges[id.index];
        let back = objects.vertices[edge.vertices[0].index];
        let front = objects.vertices[edge.vertices[1].index];
        assert_eq!(back.position, point([0.]));
        assert_eq!(front.position, point([1.]));
        assert_eq!(
            front.surface_form,
            objects.vertices[objects.half_edges[next.index].vertices[0].index].surface_form
        );
        let form = objects.surface_vertices[back.surface_form.index];
        assert_eq!(form.position, points[j]);
        assert_eq!(edge.global_form[0], form.global_form);
        let global = objects.global_vertices[form.global_form.index];
        let expected = [[0., 0., 0.], [2., 0., 0.], [2., 2., 0.]];
        assert_eq!(global.position, point(expected[j]));
    }
    assert_eq!(objects.surfaces.len(), 1);
    assert_eq!(objects.curves.len(), 3);
    assert_eq!(objects.global_vertices.len(), 3);
    assert_eq!(objects.surface_vertices.len(), 3);
    assert_eq!(objects.vertices.len(), 6);
    assert_eq!(objects.half_edges.len(), 3);
}

#[test]
fn face_with_a_hole_is_built() {
    let mut partials = Partials::new();
    let mut objects = Objects::new();
    let surface = partials.insert_surface(PartialSurface {
        geometry: Some(plane()),
    });
    let outer = vec![point([0., 0.]), point([4., 0.]), point([0., 4.])];
    let inner = vec![point([1., 1.]), point([2., 1.]), point([1., 2.])];
    let exterior = PartialCycle::from_poly_chain(surface, &outer, &mut partials);
    let hole = PartialCycle::from_poly_chain(surface, &inner, &mut partials);
    let face = PartialFace {
        surface: Some(surface),
        exterior,
        interiors: vec![hole],
        color: Some(fj_interop::Color([1, 2, 3, 4])),
    };
    let built = face.build(&mut partials, &mut objects);
    assert_eq!(built.exterior.half_edges.len(), 3);
    assert_eq!(built.interiors.len(), 1);
    assert_eq!(built.interiors[0].half_edges.len(), 3);
    assert_eq!(built.color, Some(fj_interop::Color([1, 2, 3, 4])));
    assert_eq!(built.surface, partials.surfaces[surface.index].full);
    assert!(built.surface.is_some());
    assert_eq!(objects.half_edges.len(), 6);
    assert_eq!(objects.surfaces.len(), 1);
}

#[test]
fn sketch_with_an_unfinished_half_edge_is_not_built() {
    let mut partials = Partials::new();
    let mut objects = Objects::new();
    let mut cycle = PartialCycle::default();
    let h = cycle.add_half_edge(&mut partials);
    let face = PartialFace {
        surface: None,
        exterior: cycle.clone(),
        interiors: Vec::new(),
        color: None,
    };
    assert_eq!(
        PartialSketch { faces: vec![face] }.try_build(&mut partials, &mut objects),
        Err(missing(Entity::Vertex, Field::Position))
    );
    assert_eq!(
        cycle.try_build(&mut partials, &mut objects),
        Err(missing(Entity::Vertex, Field::Position))
    );
    assert_eq!(
        partials.build_half_edge(h, &mut objects),
        Err(missing(Entity::Vertex, Field::Position))
    );
    assert_eq!(
        partials.read_half_edge(h).try_build(&mut partials, &mut objects),
        Err(missing(Entity::Vertex, Field::Position))
    );
    assert_eq!(
        PartialSketch::default().try_build(&mut partials, &mut objects).map(|s| s.faces.len()),
        Ok(0)
    );
}

#[test]
fn derived_half_edges_meet_where_the_half_edges_met() {
    let mut partials = Partials::new();
    let mut objects = Objects::new();
    let surface = partials.insert_surface(PartialSurface {
        geometry: Some(plane()),
    });
    let points = vec![point([0., 0.]), point([4., 0.]), point([0., 4.])];
    let cycle = PartialCycle::from_poly_chain(surface, &points, &mut partials);
    let built = cycle.build(&mut partials, &mut objects);
    let stored = objects.half_edges.len();

    let mut fresh = Partials::new();
    let mut cache = FullToPartialCache::new();
    let handles: Vec<_> = built
        .half_edges
        .iter()
        .map(|id| fresh.half_edge_from_full(*id, &mut cache, &objects))
        .collect();
    assert_eq!(handles.len(), 3);
    for (j, h) in handles.iter().enumerate() {
        let next = handles[(j + 1) % 3];
        let edge = fresh.read_half_edge(*h);
        let front = fresh.read_vertex(edge.vertices[1]);
        let back_of_next = fresh.read_vertex(fresh.read_half_edge(next).vertices[0]);
        // The two are different vertices on different curves, at one surface
        // vertex.
        assert_ne!(edge.vertices[1], fresh.read_half_edge(next).vertices[0]);
        assert_eq!(front.surface_form, back_of_next.surface_form);
        assert_eq!(
            edge.global_form[1],
            fresh.read_surface_vertex(front.surface_form).global_form
        );
        assert_eq!(
            fresh.read_surface_vertex(front.surface_form).position,
            Some(points[(j + 1) % 3])
        );
    }
    assert_eq!(fresh.surfaces.len(), 1);
    assert_eq!(fresh.surface_vertices.len(), 3);
    assert_eq!(fresh.global_vertices.len(), 3);
    assert_eq!(fresh.vertices.len(), 6);
    for (h, id) in handles.iter().zip(built.half_edges.iter()) {
        assert_eq!(fresh.build_half_edge(*h, &mut objects), Ok(*id));
        assert_eq!(fresh.half_edge_from_full(*id, &mut cache, &objects), *h);
    }
    assert_eq!(objects.half_edges.len(), stored);
    let derived = fj_kernel::partial::edge::PartialHalfEdge::from_full(
        &objects.half_edges[0],
        &mut cache,
        &mut fresh,
        &objects,
    );
    assert_eq!(derived, fresh.read_half_edge(handles[0]));
}

#[test]
fn arena_and_store_can_be_tested_for_fitting_together() {
    let mut partials = Partials::new();
    let mut objects = Objects::new();
    assert!(partials.is_ready(&objects));
    let h = vertex_with_curve_position(&mut partials);
    assert!(partials.is_well_formed());
    partials.build_vertex(h, &mut objects).unwrap();
    assert!(partials.is_ready(&objects));
    assert!(objects.is_well_formed());
    // What the arena remembers is not in another store.
    let other = Objects::new();
    assert!(!partials.is_built_within(&other));
    assert!(!partials.is_ready(&other));
    // A handle that leads nowhere.
    let mut broken = Partials::new();
    broken.vertices.push(partials.vertices[h.index]);
    assert!(!broken.is_well_formed());
    let mut store = Objects::new();
    store.vertices.push(objects.vertices[0]);
    assert!(!store.is_well_formed());
}

#[test]
fn new_partial_objects_have_nothing_set() {
    let mut partials = Partials::new();
    let surface = partials.new_surface();
    assert_eq!(partials.read_surface(surface), PartialSurface::default());
    assert_eq!(partials.read_surface(surface).geometry, None);
    let global = partials.new_global_vertex();
    assert_eq!(partials.read_global_vertex(global).position, None);
    let curve = partials.new_curve();
    assert_eq!(partials.read_curve(curve).path, None);
    assert_ne!(partials.read_curve(curve).surface, surface);
    let form = partials.new_surface_vertex();
    assert_eq!(partials.read_surface_vertex(form).position, None);
    assert_ne!(partials.read_surface_vertex(form).global_form, global);
    let vertex = partials.new_vertex();
    let partial = partials.read_vertex(vertex);
    assert_eq!(partial.position, None);
    assert_ne!(partial.curve, curve);
    assert_ne!(partial.surface_form, form);
    let edge = partials.new_half_edge();
    let partial = partials.read_half_edge(edge);
    assert_ne!(partial.vertices[0], partial.vertices[1]);
    assert_ne!(partial.global_form[0], partial.global_form[1]);
    let back = partials.read_vertex(partial.vertices[0]);
    let front = partials.read_vertex(partial.vertices[1]);
    assert_eq!(back.curve, front.curve);
    assert_ne!(back.surface_form, front.surface_form);
    assert_eq!(
        partial.global_form[1],
        partials.read_surface_vertex(front.surface_form).global_form
    );
    assert!(partials.is_well_formed());
}

#[test]
fn curve_and_half_edge_are_built_where_nothing_is_missing() {
    let mut partials = Partials::new();
    let mut objects = Objects::new();
    let surface = partials.insert_surface(PartialSurface {
        geometry: Some(plane()),
    });
    let points = vec![point([0., 0.]), point([4., 0.]), point([0., 4.])];
    let cycle = PartialCycle::from_poly_chain(surface, &points, &mut partials);
    let edge = partials.read_half_edge(cycle.half_edges[0]);
    let curve = partials.read_curve(partials.read_vertex(edge.vertices[0]).curve);
    let built_curve = curve.build(&mut partials, &mut objects);
    assert_eq!(Some(built_curve.path), curve.path);
    assert_eq!(curve.try_build(&mut partials, &mut objects), Ok(built_curve));
    let built_edge = edge.build(&mut partials, &mut objects);
    assert_eq!(edge.try_build(&mut partials, &mut objects), Ok(built_edge));
    let back = objects.vertices[built_edge.vertices[0].index];
    assert_eq!(objects.curves[back.curve.index], built_curve);
    assert_eq!(
        PartialSketch::default().build(&mut partials, &mut objects).faces.len(),
        0
    );
    let without_path = PartialCurve {
        path: None,
        surface,
    };
    assert_eq!(
        without_path.try_build(&mut partials, &mut objects),
        Err(missing(Entity::Curve, Field::Path))
    );
}
