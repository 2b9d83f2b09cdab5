use fj_kernel::builder::surface::{check_span_plane, SurfaceBuilder};
use fj_kernel::geometry::{GlobalPath, SurfaceGeometry};
use fj_kernel::math::{Line, Point, Vector};
use fj_kernel::partial::surface::PartialSurface;
use fj_math::Scalar;

fn point<const D: usize>(coords: [f64; D]) -> Point<D> {
    Point {
        coords: coords.map(Scalar::from_f64),
    }
}

fn vector<const D: usize>(components: [f64; D]) -> Vector<D> {
    Vector {
        components: components.map(Scalar::from_f64),
    }
}

#[test]
fn surface_from_axes_has_these_axes() {
    let u = GlobalPath::Line(Line {
        origin: point([1., 2., 3.]),
        direction: vector([0., 0., 1.]),
    });
    let v = vector([1., 1., 0.]);
    let surface = PartialSurface::from_axes(u, v);
    assert_eq!(surface.geometry, Some(SurfaceGeometry { u, v }));
}

#[test]
fn plane_from_points_has_the_points_as_its_frame() {
    let points = [
        point([1., 1., 1.]),
        point([3., 1., 2.]),
        point([1., 4., 1.]),
    ];
    assert!(check_span_plane(&points));
    let (surface, coords) = PartialSurface::plane_from_points(points);
    assert_eq!(
        coords,
        [point([0., 0.]), point([1., 0.]), point([0., 1.])]
    );
    let geometry = surface.geometry.unwrap();
    assert_eq!(
        geometry.u,
        GlobalPath::Line(Line {
            origin: point([1., 1., 1.]),
            direction: vector([2., 0., 1.]),
        })
    );
    assert_eq!(geometry.v, vector([0., 3., 0.]));
}

#[test]
fn plane_from_points_reproduces_the_points() {
    let triples = [
        [[0., 0., 0.], [1., 0., 0.], [0., 1., 0.]],
        [[1.5, -2., 0.25], [3., 1., 2.], [-1., 4., 1.]],
        [[0.1, 0.2, 0.3], [0.4, 0.5, 0.7], [1e3, -1e3, 0.]],
    ];
    for triple in triples {
        let points = triple.map(point);
        let (surface, coords) = PartialSurface::try_plane_from_points(points).unwrap();
        let geometry = surface.geometry.unwrap();
        for (p, c) in points.iter().zip(coords.iter()) {
            let q = geometry.point_from_surface_coords(c).unwrap();
            for (a, b) in p.coords.iter().zip(q.coords.iter()) {
                assert!((a.into_f64() - b.into_f64()).abs() <= 1e-9);
            }
        }
    }
}

#[test]
fn plane_needs_two_axes() {
    let coincident = [
        point([1., 1., 1.]),
        point([1., 1., 1.]),
        point([1., 4., 1.]),
    ];
    assert!(!check_span_plane(&coincident));
    assert!(PartialSurface::try_plane_from_points(coincident).is_none());
    let flat = [
        point([1., 1., 1.]),
        point([2., 1., 1.]),
        point([1., 1., 1.]),
    ];
    assert!(!check_span_plane(&flat));
    assert!(PartialSurface::try_plane_from_points(flat).is_none());
    let endless = [
        point([1., 1., 1.]),
        point([2., 1., 1.]),
        point([1., f64::INFINITY, 1.]),
    ];
    assert!(PartialSurface::try_plane_from_points(endless).is_none());
}

#[test]
fn points_on_one_line_span_no_plane() {
    let in_a_row = [
        point([0., 0., 0.]),
        point([1., 0., 0.]),
        point([2., 0., 0.]),
    ];
    assert!(!check_span_plane(&in_a_row));
    assert!(PartialSurface::try_plane_from_points(in_a_row).is_none());
    let slanted = [
        point([1., 2., 3.]),
        point([2., 4., 6.]),
        point([-1., -2., -3.]),
    ];
    assert!(!check_span_plane(&slanted));
    let back = [
        point([1., 1., 1.]),
        point([3., 1., 1.]),
        point([2., 1., 1.]),
    ];
    assert!(!check_span_plane(&back));
    let nearly = [
        point([0., 0., 0.]),
        point([1., 0., 0.]),
        point([2., 1e-9, 0.]),
    ];
    assert!(check_span_plane(&nearly));
    // So large that the products cannot be computed.
    let huge = [
        point([0., 0., 0.]),
        point([1e200, 0., 0.]),
        point([0., 1e200, 0.]),
    ];
    assert!(!check_span_plane(&huge));
}
