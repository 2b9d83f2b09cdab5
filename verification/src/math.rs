//! Points, vectors and lines over `fj_math`'s scalar type.
//!
//! A scalar is an opaque value here: all arithmetic on it is done by `fj_math`,
//! and the contracts speak of the results by name. What this module adds is the
//! bookkeeping around those calls: coordinates are tested to be finite before
//! any arithmetic is attempted, so that no operation below can fail at run time.

use vstd::prelude::*;
use fj_math::Scalar;

verus! {

/// `fj_math::Scalar`: a floating-point number that is not NaN. Nothing of it
/// is visible here but what the functions below say.
#[verifier::external_type_specification]
#[verifier::external_body]
pub struct ExScalar(Scalar);

/// Whether a scalar is a finite number (neither an infinity nor NaN).
pub uninterp spec fn finite(s: Scalar) -> bool;

/// The scalar that `Scalar::from_u64` makes of an integer.
pub uninterp spec fn scalar_of(n: u64) -> Scalar;

/// Whether `fj_math` regards two scalars as equal (`==` on `Scalar`).
pub uninterp spec fn same(a: Scalar, b: Scalar) -> bool;

/// Whether `fj_math` orders the scalar `a` before the scalar `b` (`<` on
/// `Scalar`).
pub uninterp spec fn less(a: Scalar, b: Scalar) -> bool;

/// The coordinates of the vector from the point `b` to the point `a`, as
/// `fj_math` computes `a - b` on points.
pub uninterp spec fn difference(a: Seq<Scalar>, b: Seq<Scalar>) -> Seq<Scalar>;

/// The length of a vector, as `Vector::magnitude` computes it.
pub uninterp spec fn magnitude(v: Seq<Scalar>) -> Scalar;

/// The point at line coordinate `t` on the line through `origin` with the given
/// `direction`, as `Line::point_from_line_coords` computes it.
pub uninterp spec fn line_point(origin: Seq<Scalar>, direction: Seq<Scalar>, t: Scalar) -> Seq<
    Scalar,
>;

/// The vector `v` multiplied by the scalar `s`, as `fj_math` computes `v * s`.
pub uninterp spec fn scaled(v: Seq<Scalar>, s: Scalar) -> Seq<Scalar>;

/// The point `p` moved by the vector `v`, as `fj_math` computes `p + v`.
pub uninterp spec fn translated(p: Seq<Scalar>, v: Seq<Scalar>) -> Seq<Scalar>;

/// The scalar `s` with its sign changed, as `fj_math` computes `-s`.
pub uninterp spec fn negated(s: Scalar) -> Scalar;

/// Whether `fj_math` regards the scalar as equal to `Scalar::TAU`, the line
/// coordinate of a full turn on a circle.
pub uninterp spec fn is_full_turn(s: Scalar) -> bool;

/// The least and the greatest corner of the smallest box with sides along the
/// axes that holds all the points, as `Aabb::<3>::from_points` computes them.
pub uninterp spec fn bounding_box(points: Seq<Seq<Scalar>>) -> (Seq<Scalar>, Seq<Scalar>);

/// The sum of two vectors, as `fj_math` computes `a + b` on vectors.
pub uninterp spec fn sum(a: Seq<Scalar>, b: Seq<Scalar>) -> Seq<Scalar>;

/// Every coordinate is finite.
pub open spec fn all_finite(a: Seq<Scalar>) -> bool {
    forall|i: int| 0 <= i < a.len() ==> finite(#[trigger] a[i])
}

/// Coordinate by coordinate, `fj_math` regards the two sequences as equal.
pub open spec fn all_same(a: Seq<Scalar>, b: Seq<Scalar>) -> bool {
    a.len() == b.len() && forall|i: int| 0 <= i < a.len() ==> same(#[trigger] a[i], b[i])
}

/// A vector of this length counts as the zero vector.
pub open spec fn vanishes(v: Seq<Scalar>) -> bool {
    same(magnitude(v), scalar_of(0))
}

/// A point in `D` dimensions.
#[derive(Clone, Copy, Debug, PartialEq, Eq)]
pub struct Point<const D: usize> {
    pub coords: [Scalar; D],
}

/// A vector in `D` dimensions.
#[derive(Clone, Copy, Debug, PartialEq, Eq)]
pub struct Vector<const D: usize> {
    pub components: [Scalar; D],
}

/// A line in `D` dimensions: the points `origin + direction * t`.
#[derive(Clone, Copy, Debug, PartialEq, Eq)]
pub struct Line<const D: usize> {
    pub origin: Point<D>,
    pub direction: Vector<D>,
}

/// A circle in `D` dimensions: the points `center + a * cos(t) + b * sin(t)`.
#[derive(Clone, Copy, Debug, PartialEq, Eq)]
pub struct Circle<const D: usize> {
    pub center: Point<D>,
    pub a: Vector<D>,
    pub b: Vector<D>,
}

/// A box with sides along the axes, given by its least and greatest corner.
#[derive(Clone, Copy, Debug, PartialEq, Eq)]
pub struct Aabb<const D: usize> {
    pub min: Point<D>,
    pub max: Point<D>,
}

/// The coordinates of each of the points.
pub open spec fn coords_of<const D: usize>(points: Seq<Point<D>>) -> Seq<Seq<Scalar>> {
    Seq::new(points.len(), |i: int| points[i]@)
}

/// Calls `f64::is_finite` on the number that the scalar holds; the result is
/// what `finite` names.
#[verifier::external_body]
fn scalar_is_finite(s: Scalar) -> (r: bool)
    ensures
        r == finite(s),
{
    s.into_f64().is_finite()
}

/// Calls `Scalar::from_u64`, which converts the integer to the nearest
/// floating-point number; that number is finite, so the call returns.
#[verifier::external_body]
fn scalar_from_u64(n: u64) -> (r: Scalar)
    ensures
        r == scalar_of(n),
        finite(r),
{
    Scalar::from_u64(n)
}

/// Calls `==` on `Scalar`, which compares the two numbers; the result is what
/// `same` names.
#[verifier::external_body]
fn scalars_equal(a: Scalar, b: Scalar) -> (r: bool)
    ensures
        r == same(a, b),
{
    a == b
}

/// Calls `<` on `Scalar`, which compares the two numbers; neither is NaN, so
/// they are comparable. The result is what `less` names.
#[verifier::external_body]
fn scalar_less(a: Scalar, b: Scalar) -> (r: bool)
    ensures
        r == less(a, b),
{
    a < b
}

/// Calls `-` on `Scalar`, which changes the sign of the number; the result is
/// never NaN.
#[verifier::external_body]
fn scalar_negated(s: Scalar) -> (r: Scalar)
    ensures
        r == negated(s),
{
    -s
}

/// Returns `Scalar::TAU`, the line coordinate of a full turn on a circle,
/// which `fj_math` regards as equal to itself.
#[verifier::external_body]
fn scalar_full_turn() -> (r: Scalar)
    ensures
        is_full_turn(r),
{
    Scalar::TAU
}

/// Calls `==` on `Scalar` with `Scalar::TAU`; the result is what
/// `is_full_turn` names.
#[verifier::external_body]
fn scalar_is_full_turn(s: Scalar) -> (r: bool)
    ensures
        r == is_full_turn(s),
{
    s == Scalar::TAU
}

/// Calls `Point::to_xyz` on a point of two coordinates, which keeps the two
/// and adds zero as the third.
#[verifier::external_body]
fn point_to_xyz(p: &Point<2>) -> (r: Point<3>)
    ensures
        r.coords@ == seq![p.coords@[0], p.coords@[1], scalar_of(0)],
{
    Point { coords: fj_math::Point::from(p.coords).to_xyz().coords.components }
}

/// Calls `Circle::from_center_and_radius`. It refuses a radius for which the
/// radius vector has magnitude zero; for any other finite radius and finite
/// center it returns the circle around that center whose radius vectors lie
/// along the first and the second axis. The zeros of the radius vectors are
/// zeros, and the two radii are the same number.
#[verifier::external_body]
fn circle_with(center: &Point<2>, radius: Scalar) -> (r: Circle<2>)
    requires
        all_finite(center.coords@),
        finite(radius),
        !vanishes(seq![radius, scalar_of(0)]),
    ensures
        r.center.coords@ == center.coords@,
        r.a.components@ == seq![radius, scalar_of(0)],
        r.b.components@ == seq![scalar_of(0), radius],
        same(r.a.components@[1], scalar_of(0)),
        same(r.b.components@[0], scalar_of(0)),
        same(r.b.components@[1], r.a.components@[0]),
{
    let circle = fj_math::Circle::<2>::from_center_and_radius(center.coords, radius);
    Circle {
        center: Point { coords: circle.center().coords.components },
        a: Vector { components: circle.a().components },
        b: Vector { components: circle.b().components },
    }
}

/// Calls `Circle::point_from_circle_coords` on the `fj_math` circle with this
/// center and these radius vectors. `fj_math` makes that circle if the radius
/// vectors have the same length, which is not zero, and are perpendicular;
/// vectors along the two axes with the same radius are. With finite inputs no
/// step of the evaluation gives NaN. Where the point lies depends on how the
/// machine computes sine and cosine, so nothing is said of it.
#[verifier::external_body]
fn circle_point_at(circle: &Circle<2>, t: &Point<1>) -> (r: Point<2>)
    requires
        all_finite(circle.center.coords@),
        all_finite(circle.a.components@),
        all_finite(circle.b.components@),
        same(circle.a.components@[1], scalar_of(0)),
        same(circle.b.components@[0], scalar_of(0)),
        same(circle.b.components@[1], circle.a.components@[0]),
        !vanishes(circle.a.components@),
        all_finite(t.coords@),
{
    let circle = fj_math::Circle::new(
        circle.center.coords,
        circle.a.components,
        circle.b.components,
    );
    Point { coords: circle.point_from_circle_coords(t.coords).coords.components }
}

/// Calls `Aabb::<3>::from_points`, which takes the least and the greatest of
/// each coordinate over all the points, so that no coordinate of a point is
/// less than the least or greater than the greatest. It refuses an empty list
/// of points.
#[verifier::external_body]
fn points_aabb(points: &Vec<Point<3>>) -> (r: Aabb<3>)
    requires
        points@.len() > 0,
    ensures
        (r.min@, r.max@) == bounding_box(coords_of(points@)),
        forall|i: int, k: int|
            0 <= i < points@.len() && 0 <= k < 3 ==> !less(
                #[trigger] points@[i].coords@[k],
                r.min.coords@[k],
            ) && !less(r.max.coords@[k], points@[i].coords@[k]),
{
    let aabb = fj_math::Aabb::<3>::from_points(points.iter().map(|p| p.coords));
    Aabb {
        min: Point { coords: aabb.min.coords.components },
        max: Point { coords: aabb.max.coords.components },
    }
}

/// Calls `-` on two `fj_math` points. The difference of finite numbers is never
/// NaN, which is the one case in which `fj_math` refuses a result.
#[verifier::external_body]
fn coords_difference<const D: usize>(a: &[Scalar; D], b: &[Scalar; D]) -> (r: [Scalar; D])
    requires
        all_finite(a@),
        all_finite(b@),
    ensures
        r@ == difference(a@, b@),
{
    (fj_math::Point::from(*a) - fj_math::Point::from(*b)).components
}

/// Calls `Vector::magnitude`: the square root of a sum of squares, which for
/// finite components is a number (possibly infinite), never NaN.
#[verifier::external_body]
fn components_magnitude<const D: usize>(v: &[Scalar; D]) -> (r: Scalar)
    requires
        all_finite(v@),
    ensures
        r == magnitude(v@),
{
    fj_math::Vector::from(*v).magnitude()
}

/// Calls `*` on an `fj_math` vector and a scalar. A product of finite numbers
/// is never NaN.
#[verifier::external_body]
fn components_scaled<const D: usize>(v: &[Scalar; D], s: Scalar) -> (r: [Scalar; D])
    requires
        all_finite(v@),
        finite(s),
    ensures
        r@ == scaled(v@, s),
{
    (fj_math::Vector::from(*v) * s).components
}

/// Calls `+` on an `fj_math` point and vector. A sum of finite numbers is never
/// NaN.
#[verifier::external_body]
fn coords_translated<const D: usize>(p: &[Scalar; D], v: &[Scalar; D]) -> (r: [Scalar; D])
    requires
        all_finite(p@),
        all_finite(v@),
    ensures
        r@ == translated(p@, v@),
{
    (fj_math::Point::from(*p) + fj_math::Vector::from(*v)).coords.components
}

/// Calls `+` on two `fj_math` vectors. A sum of finite numbers is never NaN.
#[verifier::external_body]
fn components_sum<const D: usize>(a: &[Scalar; D], b: &[Scalar; D]) -> (r: [Scalar; D])
    requires
        all_finite(a@),
        all_finite(b@),
    ensures
        r@ == sum(a@, b@),
{
    (fj_math::Vector::from(*a) + fj_math::Vector::from(*b)).components
}

/// Calls `Line::from_points`. It refuses two points whose difference has
/// magnitude zero; for any other pair of finite points with a finite
/// difference it returns the line whose origin is the first point and whose
/// direction is the second minus the first, together with the line
/// coordinates of the two points, which are always 0 and 1.
#[verifier::external_body]
fn line_through<const D: usize>(a: &Point<D>, b: &Point<D>) -> (r: (Line<D>, [Point<1>; 2]))
    requires
        all_finite(a.coords@),
        all_finite(b.coords@),
        all_finite(difference(b.coords@, a.coords@)),
        !vanishes(difference(b.coords@, a.coords@)),
    ensures
        r.0.origin == *a,
        r.0.direction.components@ == difference(b.coords@, a.coords@),
        r.1@.len() == 2,
        r.1@[0].coords@ == seq![scalar_of(0)],
        r.1@[1].coords@ == seq![scalar_of(1)],
{
    let (line, coords) = fj_math::Line::from_points([a.coords, b.coords]);
    (
        Line {
            origin: Point { coords: line.origin().coords.components },
            direction: Vector { components: line.direction().components },
        },
        coords.map(|c| Point { coords: c.coords.components }),
    )
}

/// Calls `Line::point_from_line_coords` on the `fj_math` line with this origin
/// and direction. `fj_math` refuses to make a line whose direction has
/// magnitude zero. With finite inputs the product `direction * t` and its sum
/// with the finite origin are never NaN.
#[verifier::external_body]
fn line_point_at<const D: usize>(line: &Line<D>, t: &Point<1>) -> (r: Point<D>)
    requires
        all_finite(line.origin.coords@),
        all_finite(line.direction.components@),
        !vanishes(line.direction.components@),
        all_finite(t.coords@),
    ensures
        r.coords@ == line_point(line.origin.coords@, line.direction.components@, t.coords@[0]),
{
    let line = fj_math::Line::from_origin_and_direction(
        fj_math::Point::from(line.origin.coords),
        fj_math::Vector::from(line.direction.components),
    );
    Point { coords: line.point_from_line_coords(t.coords).coords.components }
}

/// Whether every scalar of the array is finite.
pub fn array_is_finite<const D: usize>(a: &[Scalar; D]) -> (r: bool)
    ensures
        r == all_finite(a@),
{
    let mut i: usize = 0;
    while i < D
        invariant
            0 <= i <= D,
            a@.len() == D,
            forall|j: int| 0 <= j < i ==> finite(#[trigger] a@[j]),
        decreases D - i,
    {
        if !scalar_is_finite(a[i]) {
            return false;
        }
        i = i + 1;
    }
    true
}

/// Whether `fj_math` regards the two arrays as equal, scalar by scalar.
pub fn arrays_same<const D: usize>(a: &[Scalar; D], b: &[Scalar; D]) -> (r: bool)
    ensures
        r == all_same(a@, b@),
{
    let mut i: usize = 0;
    while i < D
        invariant
            0 <= i <= D,
            a@.len() == D,
            b@.len() == D,
            forall|j: int| 0 <= j < i ==> same(#[trigger] a@[j], b@[j]),
        decreases D - i,
    {
        if !scalars_equal(a[i], b[i]) {
            return false;
        }
        i = i + 1;
    }
    true
}

/// The scalar for a small whole number.
pub fn scalar(n: u64) -> (r: Scalar)
    ensures
        r == scalar_of(n),
        finite(r),
{
    scalar_from_u64(n)
}

/// Whether the scalar is a finite number.
pub fn is_finite(s: Scalar) -> (r: bool)
    ensures
        r == finite(s),
{
    scalar_is_finite(s)
}

/// Whether `fj_math` regards the two scalars as equal.
pub fn is_same(a: Scalar, b: Scalar) -> (r: bool)
    ensures
        r == same(a, b),
{
    scalars_equal(a, b)
}

/// Whether `fj_math` orders `a` before `b`.
pub fn is_less(a: Scalar, b: Scalar) -> (r: bool)
    ensures
        r == less(a, b),
{
    scalar_less(a, b)
}

/// The scalar with its sign changed.
pub fn negate(s: Scalar) -> (r: Scalar)
    ensures
        r == negated(s),
{
    scalar_negated(s)
}

impl<const D: usize> Aabb<D> {
    /// The box holds the point with these coordinates: none of them is less
    /// than that of the least corner or greater than that of the greatest.
    pub open spec fn holds(&self, p: Seq<Scalar>) -> bool {
        forall|k: int|
            0 <= k < D ==> !less(#[trigger] p[k], self.min@[k]) && !less(self.max@[k], p[k])
    }
}

impl Aabb<3> {
    /// The smallest box that holds all the points, of which there must be at
    /// least one.
    pub fn from_points(points: &Vec<Point<3>>) -> (r: Aabb<3>)
        requires
            points@.len() > 0,
        ensures
            (r.min@, r.max@) == bounding_box(coords_of(points@)),
            forall|i: int| 0 <= i < points@.len() ==> r.holds(#[trigger] points@[i]@),
    {
        let r = points_aabb(points);
        assert forall|i: int| 0 <= i < points@.len() implies r.holds(#[trigger] points@[i]@) by {
            assert forall|k: int| 0 <= k < 3 implies !less(
                #[trigger] points@[i]@[k],
                r.min@[k],
            ) && !less(r.max@[k], points@[i]@[k]) by {
                assert(!less(points@[i].coords@[k], r.min.coords@[k]));
            }
        }
        r
    }
}

/// The number `a * b - c * d`, as `fj_math` computes the two products and
/// their difference.
pub open spec fn minor(a: Scalar, b: Scalar, c: Scalar, d: Scalar) -> Scalar {
    difference(scaled(seq![a], b), scaled(seq![c], d))[0]
}

/// The number `a * b - c * d` can be computed: the four numbers and the two
/// products are finite.
pub open spec fn minor_defined(a: Scalar, b: Scalar, c: Scalar, d: Scalar) -> bool {
    &&& finite(a)
    &&& finite(b)
    &&& finite(c)
    &&& finite(d)
    &&& all_finite(scaled(seq![a], b))
    &&& all_finite(scaled(seq![c], d))
}

/// The number `a * b - c * d`, if it can be computed.
pub fn minor_of(a: Scalar, b: Scalar, c: Scalar, d: Scalar) -> (r: Option<Scalar>)
    ensures
        r.is_some() == minor_defined(a, b, c, d),
        r.is_some() ==> r.unwrap() == minor(a, b, c, d),
{
    let first = Vector { components: [a] };
    let second = Vector { components: [c] };
    assert(first@ =~= seq![a]);
    assert(second@ =~= seq![c]);
    assert(all_finite(first@) == finite(a)) by {
        if finite(a) {
            assert(all_finite(first@));
        } else {
            assert(!finite(first@[0]));
        }
    }
    assert(all_finite(second@) == finite(c)) by {
        if finite(c) {
            assert(all_finite(second@));
        } else {
            assert(!finite(second@[0]));
        }
    }
    let left = match first.times(b) {
        Some(v) => v,
        None => {
            return None;
        },
    };
    let right = match second.times(d) {
        Some(v) => v,
        None => {
            return None;
        },
    };
    match (Point { coords: left.components }).minus(&Point { coords: right.components }) {
        Some(v) => Some(v.components[0]),
        None => None,
    }
}

/// The coordinates of the cross product of two vectors in space.
pub open spec fn cross(u: Seq<Scalar>, v: Seq<Scalar>) -> Seq<Scalar> {
    seq![
        minor(u[1], v[2], u[2], v[1]),
        minor(u[2], v[0], u[0], v[2]),
        minor(u[0], v[1], u[1], v[0]),
    ]
}

/// The cross product of two vectors in space can be computed.
pub open spec fn cross_defined(u: Seq<Scalar>, v: Seq<Scalar>) -> bool {
    &&& minor_defined(u[1], v[2], u[2], v[1])
    &&& minor_defined(u[2], v[0], u[0], v[2])
    &&& minor_defined(u[0], v[1], u[1], v[0])
}

impl Vector<3> {
    /// The cross product with another vector, if it can be computed.
    pub fn cross(&self, other: &Vector<3>) -> (r: Option<Vector<3>>)
        ensures
            r.is_some() == cross_defined(self@, other@),
            r.is_some() ==> r.unwrap()@ == cross(self@, other@),
    {
        let u = self.components;
        let v = other.components;
        let x = match minor_of(u[1], v[2], u[2], v[1]) {
            Some(s) => s,
            None => {
                return None;
            },
        };
        let y = match minor_of(u[2], v[0], u[0], v[2]) {
            Some(s) => s,
            None => {
                return None;
            },
        };
        let z = match minor_of(u[0], v[1], u[1], v[0]) {
            Some(s) => s,
            None => {
                return None;
            },
        };
        let r = Vector { components: [x, y, z] };
        assert(r@ =~= cross(self@, other@));
        Some(r)
    }
}

impl Point<2> {
    /// The point of space that a point of the plane of the first two axes is.
    pub fn to_xyz(&self) -> (r: Point<3>)
        ensures
            r@ == seq![self@[0], self@[1], scalar_of(0)],
    {
        point_to_xyz(self)
    }
}

/// The line coordinate of a full turn on a circle.
pub fn full_turn() -> (r: Scalar)
    ensures
        is_full_turn(r),
{
    scalar_full_turn()
}

/// Whether the scalar is the line coordinate of a full turn on a circle.
pub fn check_full_turn(s: Scalar) -> (r: bool)
    ensures
        r == is_full_turn(s),
{
    scalar_is_full_turn(s)
}

impl Circle<2> {
    /// A circle can have the radius `radius` if that is a finite number, and
    /// so far from zero that the radius vector has a length.
    pub open spec fn is_radius(radius: Scalar) -> bool {
        finite(radius) && !vanishes(seq![radius, scalar_of(0)])
    }

    /// A circle can be evaluated if its center and its radius vectors are
    /// finite, and the radius vectors lie along the first and the second axis
    /// with the same radius, which is not zero.
    pub open spec fn is_proper(&self) -> bool {
        &&& all_finite(self.center@)
        &&& all_finite(self.a@)
        &&& all_finite(self.b@)
        &&& same(self.a@[1], scalar_of(0))
        &&& same(self.b@[0], scalar_of(0))
        &&& same(self.b@[1], self.a@[0])
        &&& !vanishes(self.a@)
    }

    /// Whether a circle can have the radius `radius`.
    pub fn check_radius(radius: Scalar) -> (r: bool)
        ensures
            r == Self::is_radius(radius),
    {
        if scalar_is_finite(radius) {
            let reach = [radius, scalar_from_u64(0)];
            assert(reach@ =~= seq![radius, scalar_of(0)]);
            !scalars_equal(components_magnitude(&reach), scalar_from_u64(0))
        } else {
            false
        }
    }

    /// Whether the circle can be evaluated.
    pub fn check_proper(&self) -> (r: bool)
        ensures
            r == self.is_proper(),
    {
        self.center.is_finite() && self.a.is_finite() && self.b.is_finite() && scalars_equal(
            self.a.components[1],
            scalar_from_u64(0),
        ) && scalars_equal(self.b.components[0], scalar_from_u64(0)) && scalars_equal(
            self.b.components[1],
            self.a.components[0],
        ) && !scalars_equal(components_magnitude(&self.a.components), scalar_from_u64(0))
    }

    /// The circle around `center` with the given radius, whose radius vectors
    /// lie along the first and the second axis; if there is one.
    pub fn from_center_and_radius(center: &Point<2>, radius: Scalar) -> (r: Option<Circle<2>>)
        ensures
            r.is_some() == (all_finite(center@) && Self::is_radius(radius)),
            r.is_some() ==> {
                &&& r.unwrap().center@ == center@
                &&& r.unwrap().a@ == seq![radius, scalar_of(0)]
                &&& r.unwrap().b@ == seq![scalar_of(0), radius]
                &&& r.unwrap().is_proper()
            },
    {
        if center.is_finite() && Self::check_radius(radius) {
            let zero = scalar_from_u64(0);
            Some(circle_with(center, radius))
        } else {
            None
        }
    }

    /// The point at circle coordinate `t`, if the circle can be evaluated and
    /// `t` is finite. Where it lies depends on how the machine computes sine
    /// and cosine.
    pub fn point_from_circle_coords(&self, t: &Point<1>) -> (r: Option<Point<2>>)
        ensures
            r.is_some() == (self.is_proper() && all_finite(t@)),
    {
        if self.check_proper() && t.is_finite() {
            Some(circle_point_at(self, t))
        } else {
            None
        }
    }
}

impl<const D: usize> Circle<D> {
    /// `fj_math` regards the two circles as equal: their centers and their
    /// two radius vectors.
    pub open spec fn matches(&self, other: Circle<D>) -> bool {
        &&& all_same(self.center@, other.center@)
        &&& all_same(self.a@, other.a@)
        &&& all_same(self.b@, other.b@)
    }

    /// Whether `fj_math` regards the two circles as equal.
    pub fn is_match(&self, other: &Circle<D>) -> (r: bool)
        ensures
            r == self.matches(*other),
    {
        self.center.same_as(&other.center) && self.a.same_as(&other.a) && self.b.same_as(&other.b)
    }
}

impl<const D: usize> View for Point<D> {
    type V = Seq<Scalar>;

    open spec fn view(&self) -> Seq<Scalar> {
        self.coords@
    }
}

impl<const D: usize> View for Vector<D> {
    type V = Seq<Scalar>;

    open spec fn view(&self) -> Seq<Scalar> {
        self.components@
    }
}

/// The point with the given coordinates.
pub open spec fn point_with<const D: usize>(coords: Seq<Scalar>) -> Point<D> {
    choose|p: Point<D>| p@ == coords
}

/// A point is the point with its coordinates.
pub proof fn lemma_point_with<const D: usize>(p: Point<D>)
    ensures
        point_with::<D>(p@) == p,
{
    let q = point_with::<D>(p@);
    assert(q@ == p@);
    assert(q.coords =~= p.coords);
}

impl<const D: usize> Point<D> {
    /// Whether every coordinate is finite.
    pub fn is_finite(&self) -> (r: bool)
        ensures
            r == all_finite(self@),
    {
        array_is_finite(&self.coords)
    }

    /// Whether `fj_math` regards the two points as equal.
    pub fn same_as(&self, other: &Point<D>) -> (r: bool)
        ensures
            r == all_same(self@, other@),
    {
        arrays_same(&self.coords, &other.coords)
    }

    /// The vector from `other` to this point, if both points are finite.
    pub fn minus(&self, other: &Point<D>) -> (r: Option<Vector<D>>)
        ensures
            r.is_some() == (all_finite(self@) && all_finite(other@)),
            r.is_some() ==> r.unwrap()@ == difference(self@, other@),
    {
        if self.is_finite() && other.is_finite() {
            Some(Vector { components: coords_difference(&self.coords, &other.coords) })
        } else {
            None
        }
    }

    /// This point moved by `offset`, if both are finite.
    pub fn plus(&self, offset: &Vector<D>) -> (r: Option<Point<D>>)
        ensures
            r.is_some() == (all_finite(self@) && all_finite(offset@)),
            r.is_some() ==> r.unwrap()@ == translated(self@, offset@),
    {
        if self.is_finite() && offset.is_finite() {
            Some(Point { coords: coords_translated(&self.coords, &offset.components) })
        } else {
            None
        }
    }
}

impl<const D: usize> Vector<D> {
    /// Whether every component is finite.
    pub fn is_finite(&self) -> (r: bool)
        ensures
            r == all_finite(self@),
    {
        array_is_finite(&self.components)
    }

    /// Whether `fj_math` regards the two vectors as equal.
    pub fn same_as(&self, other: &Vector<D>) -> (r: bool)
        ensures
            r == all_same(self@, other@),
    {
        arrays_same(&self.components, &other.components)
    }

    /// The length of the vector, if its components are finite.
    pub fn magnitude(&self) -> (r: Option<Scalar>)
        ensures
            r.is_some() == all_finite(self@),
            r.is_some() ==> r.unwrap() == magnitude(self@),
    {
        if self.is_finite() {
            Some(components_magnitude(&self.components))
        } else {
            None
        }
    }

    /// The vector multiplied by `factor`, if both are finite.
    pub fn times(&self, factor: Scalar) -> (r: Option<Vector<D>>)
        ensures
            r.is_some() == (all_finite(self@) && finite(factor)),
            r.is_some() ==> r.unwrap()@ == scaled(self@, factor),
    {
        if self.is_finite() && scalar_is_finite(factor) {
            Some(Vector { components: components_scaled(&self.components, factor) })
        } else {
            None
        }
    }

    /// The sum of the two vectors, if both are finite.
    pub fn plus(&self, other: &Vector<D>) -> (r: Option<Vector<D>>)
        ensures
            r.is_some() == (all_finite(self@) && all_finite(other@)),
            r.is_some() ==> r.unwrap()@ == sum(self@, other@),
    {
        if self.is_finite() && other.is_finite() {
            Some(Vector { components: components_sum(&self.components, &other.components) })
        } else {
            None
        }
    }
}

impl<const D: usize> Line<D> {
    /// `fj_math` regards the two lines as equal: their origins and their
    /// directions.
    pub open spec fn matches(&self, other: Line<D>) -> bool {
        all_same(self.origin@, other.origin@) && all_same(self.direction@, other.direction@)
    }

    /// Whether `fj_math` regards the two lines as equal.
    pub fn is_match(&self, other: &Line<D>) -> (r: bool)
        ensures
            r == self.matches(*other),
    {
        self.origin.same_as(&other.origin) && self.direction.same_as(&other.direction)
    }

    /// Two points span a line if both are finite and the vector between them
    /// is finite and does not vanish.
    pub open spec fn spanned_by(a: Point<D>, b: Point<D>) -> bool {
        &&& all_finite(a@)
        &&& all_finite(b@)
        &&& all_finite(difference(b@, a@))
        &&& !vanishes(difference(b@, a@))
    }

    /// A line can be evaluated if its origin and direction are finite and the
    /// direction does not vanish.
    pub open spec fn is_proper(&self) -> bool {
        all_finite(self.origin@) && all_finite(self.direction@) && !vanishes(self.direction@)
    }

    /// Whether the two points span a line.
    pub fn spans(a: &Point<D>, b: &Point<D>) -> (r: bool)
        ensures
            r == Self::spanned_by(*a, *b),
    {
        if a.is_finite() && b.is_finite() {
            let between = coords_difference(&b.coords, &a.coords);
            if array_is_finite(&between) {
                !scalars_equal(components_magnitude(&between), scalar_from_u64(0))
            } else {
                false
            }
        } else {
            false
        }
    }

    /// The line through two points, with the line coordinates of those points.
    pub fn from_points(a: &Point<D>, b: &Point<D>) -> (r: (Line<D>, [Point<1>; 2]))
        requires
            Self::spanned_by(*a, *b),
        ensures
            r.0.origin == *a,
            r.0.direction@ == difference(b@, a@),
            r.0.is_proper(),
            r.1@.len() == 2,
            r.1@[0]@ == seq![scalar_of(0)],
            r.1@[1]@ == seq![scalar_of(1)],
    {
        line_through(a, b)
    }

    /// Whether the line can be evaluated.
    pub fn check_proper(&self) -> (r: bool)
        ensures
            r == self.is_proper(),
    {
        self.origin.is_finite() && self.direction.is_finite() && !scalars_equal(
            components_magnitude(&self.direction.components),
            scalar_from_u64(0),
        )
    }

    /// The point at line coordinate `t`, if the line can be evaluated and `t`
    /// is finite.
    pub fn point_from_line_coords(&self, t: &Point<1>) -> (r: Option<Point<D>>)
        ensures
            r.is_some() == (self.is_proper() && all_finite(t@)),
            r.is_some() ==> r.unwrap()@ == line_point(self.origin@, self.direction@, t@[0]),
    {
        if self.check_proper() && t.is_finite() {
            Some(line_point_at(self, t))
        } else {
            None
        }
    }
}

} // verus!
