use fj_kernel::geometry::{GlobalPath, SurfaceGeometry, SurfacePath};
use fj_kernel::interop::color;
use fj_kernel::math::{
    array_is_finite, arrays_same, is_finite, is_less, is_same, negate, scalar, Aabb, Line, Point,
    Vector,
};
use fj_math::Scalar;

fn s(value: f64) -> Scalar {
    Scalar::from_f64(value)
}

fn point<const D: usize>(coords: [f64; D]) -> Point<D> {
    Point {
        coords: coords.map(Scalar::from_f64),
    }
}

fn vector<const D: usize>(components: [f64; D]) -> Vector<D> {
    Vector {
        components: components.map(Scalar::from_f64),
    }
}

#[test]
fn scalar_makes_the_number() {
    assert_eq!(scalar(0), Scalar::ZERO);
    assert_eq!(scalar(1), Scalar::ONE);
    assert_eq!(scalar(7), s(7.0));
}

#[test]
fn is_finite_tells_infinities_apart() {
    assert!(is_finite(s(1.5)));
    assert!(is_finite(s(0.0)));
    assert!(!is_finite(s(f64::INFINITY)));
    assert!(!is_finite(s(f64::NEG_INFINITY)));
    assert!(array_is_finite(&[s(1.0), s(-2.0)]));
    assert!(!array_is_finite(&[s(1.0), s(f64::INFINITY)]));
    assert!(array_is_finite::<0>(&[]));
}

#[test]
fn is_same_compares_numbers() {
    assert!(is_same(s(2.0), s(2.0)));
    assert!(!is_same(s(2.0), s(3.0)));
    assert!(is_same(s(0.0), s(-0.0)));
    assert!(arrays_same(&[s(1.0), s(2.0)], &[s(1.0), s(2.0)]));
    assert!(!arrays_same(&[s(1.0), s(2.0)], &[s(1.0), s(2.5)]));
}

#[test]
fn is_less_orders_numbers() {
    assert!(is_less(s(1.0), s(2.0)));
    assert!(!is_less(s(2.0), s(1.0)));
    assert!(!is_less(s(2.0), s(2.0)));
    assert!(is_less(s(-1.0), s(0.0)));
}

#[test]
fn negate_changes_the_sign() {
    assert_eq!(negate(s(2.5)), s(-2.5));
    assert_eq!(negate(s(-1.0)), s(1.0));
}

#[test]
fn point_minus_point_is_their_difference() {
    let a = point([4.0, 6.0, 8.0]);
    let b = point([1.0, 2.0, 3.0]);
    assert_eq!(a.minus(&b), Some(vector([3.0, 4.0, 5.0])));
    assert_eq!(b.minus(&a), Some(vector([-3.0, -4.0, -5.0])));
}

#[test]
fn point_minus_point_needs_finite_points() {
    let a = point([f64::INFINITY, 0.0]);
    let b = point([1.0, 2.0]);
    assert_eq!(a.minus(&b), None);
    assert_eq!(b.minus(&a), None);
}

#[test]
fn point_plus_vector_is_the_moved_point() {
    let p = point([1.0, 2.0]);
    let v = vector([0.5, -3.0]);
    assert_eq!(p.plus(&v), Some(point([1.5, -1.0])));
    assert_eq!(p.plus(&vector([f64::INFINITY, 0.0])), None);
}

#[test]
fn vector_times_scalar_is_the_scaled_vector() {
    let v = vector([1.0, -2.0, 4.0]);
    assert_eq!(v.times(s(2.0)), Some(vector([2.0, -4.0, 8.0])));
    assert_eq!(v.times(s(f64::INFINITY)), None);
    assert_eq!(vector([f64::NEG_INFINITY]).times(s(1.0)), None);
}

#[test]
fn vector_plus_vector_is_the_sum() {
    let a = vector([1.0, 2.0]);
    let b = vector([3.0, 5.0]);
    assert_eq!(a.plus(&b), Some(vector([4.0, 7.0])));
    assert_eq!(a.plus(&vector([f64::INFINITY, 0.0])), None);
}

#[test]
fn magnitude_is_the_length() {
    assert_eq!(vector([3.0, 4.0]).magnitude(), Some(s(5.0)));
    assert_eq!(vector([0.0, 0.0, 0.0]).magnitude(), Some(s(0.0)));
    assert_eq!(vector([f64::INFINITY, 4.0]).magnitude(), None);
}

#[test]
fn same_as_compares_points_and_vectors() {
    assert!(point([1.0, 2.0]).same_as(&point([1.0, 2.0])));
    assert!(!point([1.0, 2.0]).same_as(&point([2.0, 1.0])));
    assert!(vector([0.0]).same_as(&vector([-0.0])));
    assert!(!vector([0.0]).same_as(&vector([1.0])));
    assert!(point([1.0]).is_finite());
    assert!(!point([f64::INFINITY]).is_finite());
    assert!(!vector([1.0, f64::NEG_INFINITY]).is_finite());
}

#[test]
fn two_points_span_a_line_unless_they_coincide() {
    assert!(Line::spans(&point([0.0, 0.0]), &point([1.0, 0.0])));
    assert!(!Line::spans(&point([1.0, 2.0]), &point([1.0, 2.0])));
    assert!(!Line::spans(&point([1.0, 2.0]), &point([f64::INFINITY, 2.0])));
    assert!(!Line::spans(&point([f64::MAX, 0.0]), &point([-f64::MAX, 0.0])));
    // The difference is not zero, but its length is too small to be told
    // from zero.
    assert!(!Line::spans(&point([0.0, 0.0]), &point([1e-200, 0.0])));
}

#[test]
fn line_from_points_starts_at_the_first_point() {
    let a = point([1.0, 1.0, 1.0]);
    let b = point([3.0, 2.0, 1.0]);
    let (line, coords) = Line::from_points(&a, &b);
    assert_eq!(line.origin, a);
    assert_eq!(line.direction, vector([2.0, 1.0, 0.0]));
    assert_eq!(coords, [point([0.0]), point([1.0])]);
    assert!(line.check_proper());
}

#[test]
fn line_is_evaluated_at_line_coordinates() {
    let line = Line {
        origin: point([1.0, 1.0]),
        direction: vector([2.0, 0.5]),
    };
    assert_eq!(line.point_from_line_coords(&point([0.0])), Some(point([1.0, 1.0])));
    assert_eq!(line.point_from_line_coords(&point([1.0])), Some(point([3.0, 1.5])));
    assert_eq!(line.point_from_line_coords(&point([-2.0])), Some(point([-3.0, 0.0])));
    assert_eq!(line.point_from_line_coords(&point([f64::INFINITY])), None);
}

#[test]
fn line_without_direction_is_not_evaluated() {
    let line = Line {
        origin: point([1.0, 1.0]),
        direction: vector([0.0, 0.0]),
    };
    assert!(!line.check_proper());
    assert_eq!(line.point_from_line_coords(&point([1.0])), None);
    let endless = Line {
        origin: point([1.0, 1.0]),
        direction: vector([f64::INFINITY, 0.0]),
    };
    assert!(!endless.check_proper());
    assert_eq!(endless.point_from_line_coords(&point([0.0])), None);
}

#[test]
fn lines_match_by_origin_and_direction() {
    let a = Line {
        origin: point([1.0, 1.0]),
        direction: vector([2.0, 0.5]),
    };
    let b = Line {
        origin: point([1.0, 1.0]),
        direction: vector([2.0, 0.25]),
    };
    assert!(a.is_match(&a));
    assert!(!a.is_match(&b));
}

#[test]
fn aabb_holds_all_the_points() {
    let points = vec![
        point([1.0, 5.0, 0.0]),
        point([-2.0, 3.0, 4.0]),
        point([0.5, 7.0, -1.0]),
    ];
    let aabb = Aabb::from_points(&points);
    assert_eq!(aabb.min, point([-2.0, 3.0, -1.0]));
    assert_eq!(aabb.max, point([1.0, 7.0, 4.0]));
}

#[test]
fn surface_path_is_evaluated_like_its_line() {
    let (path, coords) = SurfacePath::line_from_points(&point([0.0, 1.0]), &point([2.0, 5.0]));
    assert_eq!(coords, [point([0.0]), point([1.0])]);
    assert_eq!(path.point_from_path_coords(&point([0.5])), Some(point([1.0, 3.0])));
    assert!(path.is_match(&path));
}

#[test]
fn circles_are_made_and_evaluated() {
    let (path, start) = SurfacePath::circle_from_radius(s(2.0)).unwrap();
    assert_eq!(start, point([2.0, 0.0]));
    match path {
        SurfacePath::Circle(circle) => {
            assert_eq!(circle.center, point([0.0, 0.0]));
            assert_eq!(circle.a, vector([2.0, 0.0]));
            assert_eq!(circle.b, vector([0.0, 2.0]));
        }
        SurfacePath::Line(_) => panic!("a line is no circle"),
    }
    assert_eq!(path.point_from_path_coords(&point([0.0])), Some(start));
    let half = path
        .point_from_path_coords(&point([std::f64::consts::PI]))
        .unwrap();
    assert_eq!(half.coords[0], s(-2.0));
    assert!(half.coords[1].into_f64().abs() < 1e-12);
    assert_eq!(path.point_from_path_coords(&point([f64::INFINITY])), None);
    assert!(path.is_match(&path));
    let (line, _) = SurfacePath::line_from_points(&point([0.0, 0.0]), &point([2.0, 0.0]));
    assert!(!path.is_match(&line));
    assert!(!line.is_match(&path));
}

#[test]
fn circles_need_a_radius() {
    assert!(SurfacePath::check_radius(s(1.0)));
    assert!(!SurfacePath::check_radius(s(0.0)));
    assert!(!SurfacePath::check_radius(s(f64::INFINITY)));
    assert!(SurfacePath::circle_from_radius(s(0.0)).is_none());
    assert!(SurfacePath::circle_from_radius(s(f64::INFINITY)).is_none());
    // Not zero, but the radius vector is too short to have a length.
    assert!(!SurfacePath::check_radius(s(1e-200)));
    assert!(SurfacePath::circle_from_radius(s(1e-200)).is_none());
    assert!(SurfacePath::check_radius(s(-1.0)));
    let center = point([3.0, 4.0]);
    let circle = fj_kernel::math::Circle::from_center_and_radius(&center, s(-1.0)).unwrap();
    assert_eq!(circle.center, center);
    assert_eq!(circle.a, vector([-1.0, 0.0]));
    assert_eq!(circle.b, vector([0.0, -1.0]));
    assert!(circle.check_proper());
    assert_eq!(circle.point_from_circle_coords(&point([0.0])), Some(point([2.0, 4.0])));
    assert!(fj_kernel::math::Circle::from_center_and_radius(&center, s(0.0)).is_none());
    assert!(
        fj_kernel::math::Circle::from_center_and_radius(&point([f64::INFINITY, 0.0]), s(1.0))
            .is_none()
    );
    // Radius vectors that do not lie along the axes are not evaluated.
    let skew = fj_kernel::math::Circle {
        center,
        a: vector([1.0, 1.0]),
        b: vector([-1.0, 1.0]),
    };
    assert!(!skew.check_proper());
    assert_eq!(skew.point_from_circle_coords(&point([0.0])), None);
    let uneven = fj_kernel::math::Circle {
        center,
        a: vector([1.0, 0.0]),
        b: vector([0.0, 2.0]),
    };
    assert!(!uneven.check_proper());
}

#[test]
fn full_turn_is_told_apart() {
    assert_eq!(fj_kernel::math::full_turn(), Scalar::TAU);
    assert!(fj_kernel::math::check_full_turn(Scalar::TAU));
    assert!(!fj_kernel::math::check_full_turn(s(0.0)));
    assert!(!fj_kernel::math::check_full_turn(s(6.28)));
}

#[test]
fn global_path_is_evaluated_like_its_line() {
    let (path, coords) =
        GlobalPath::line_from_points(&point([0.0, 1.0, 2.0]), &point([2.0, 5.0, 2.0]));
    assert_eq!(coords, [point([0.0]), point([1.0])]);
    assert_eq!(
        path.point_from_path_coords(&point([2.0])),
        Some(point([4.0, 9.0, 2.0]))
    );
    assert!(path.is_match(&path));
}

#[test]
fn surface_is_evaluated_along_both_axes() {
    let (u, _) = GlobalPath::line_from_points(&point([1.0, 0.0, 0.0]), &point([3.0, 0.0, 0.0]));
    let geometry = SurfaceGeometry {
        u,
        v: vector([0.0, 0.0, 4.0]),
    };
    assert_eq!(
        geometry.point_from_surface_coords(&point([0.5, 0.25])),
        Some(point([2.0, 0.0, 1.0]))
    );
    assert_eq!(
        geometry.point_from_surface_coords(&point([0.0, 0.0])),
        Some(point([1.0, 0.0, 0.0]))
    );
    assert_eq!(
        geometry.point_from_surface_coords(&point([f64::INFINITY, 0.0])),
        None
    );
    assert!(geometry.is_match(&geometry));
    let other = SurfaceGeometry {
        u,
        v: vector([0.0, 1.0, 4.0]),
    };
    assert!(!geometry.is_match(&other));
}

#[test]
fn color_has_its_parts() {
    assert_eq!(color([1, 2, 3, 4]), fj_interop::Color([1, 2, 3, 4]));
    assert_eq!(color([255, 0, 0, 255]), fj_interop::Color::default());
}

#[test]
fn point_of_the_plane_is_a_point_of_space() {
    assert_eq!(point([3.0, 4.0]).to_xyz(), point([3.0, 4.0, 0.0]));
}

#[test]
fn minor_is_a_difference_of_products() {
    assert_eq!(fj_kernel::math::minor_of(s(2.0), s(3.0), s(4.0), s(5.0)), Some(s(-14.0)));
    assert_eq!(fj_kernel::math::minor_of(s(1.0), s(1.0), s(0.0), s(0.0)), Some(s(1.0)));
    assert_eq!(fj_kernel::math::minor_of(s(f64::INFINITY), s(1.0), s(0.0), s(0.0)), None);
    assert_eq!(fj_kernel::math::minor_of(s(1e200), s(1e200), s(0.0), s(0.0)), None);
    assert_eq!(fj_kernel::math::minor_of(s(0.0), s(0.0), s(1e200), s(1e200)), None);
}

#[test]
fn cross_product_is_perpendicular() {
    assert_eq!(
        vector([1.0, 0.0, 0.0]).cross(&vector([0.0, 1.0, 0.0])),
        Some(vector([0.0, 0.0, 1.0]))
    );
    assert_eq!(
        vector([1.0, 2.0, 3.0]).cross(&vector([4.0, 5.0, 6.0])),
        Some(vector([-3.0, 6.0, -3.0]))
    );
    assert_eq!(
        vector([1.0, 2.0, 3.0]).cross(&vector([2.0, 4.0, 6.0])),
        Some(vector([0.0, 0.0, 0.0]))
    );
    assert_eq!(
        vector([1e200, 0.0, 0.0]).cross(&vector([0.0, 1e200, 0.0])),
        None
    );
}
