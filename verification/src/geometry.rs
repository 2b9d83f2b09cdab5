//! The geometry that objects refer to: paths on a surface, paths in space, and
//! the surfaces that are swept from them.

use vstd::prelude::*;
use fj_math::Scalar;
use crate::math::{
    all_finite, all_same, lemma_point_with, line_point, point_with, scalar, scalar_of, scaled,
    translated, Circle, Line, Point, Vector,
};

verus! {

/// A path in the two-dimensional coordinates of a surface.
#[derive(Clone, Copy, Debug, PartialEq, Eq)]
pub enum SurfacePath {
    Line(Line<2>),
    Circle(Circle<2>),
}

/// A path in three-dimensional space.
#[derive(Clone, Copy, Debug, PartialEq, Eq)]
pub enum GlobalPath {
    Line(Line<3>),
}

/// A surface: the path `u`, swept along the vector `v`.
#[derive(Clone, Copy, Debug, PartialEq, Eq)]
pub struct SurfaceGeometry {
    pub u: GlobalPath,
    pub v: Vector<3>,
}

impl SurfacePath {
    /// `fj_math` regards the two paths as equal.
    pub open spec fn matches(&self, other: SurfacePath) -> bool {
        match (*self, other) {
            (SurfacePath::Line(a), SurfacePath::Line(b)) => a.matches(b),
            (SurfacePath::Circle(a), SurfacePath::Circle(b)) => a.matches(b),
            _ => false,
        }
    }

    /// Whether `fj_math` regards the two paths as equal.
    pub fn is_match(&self, other: &SurfacePath) -> (r: bool)
        ensures
            r == self.matches(*other),
    {
        match (self, other) {
            (SurfacePath::Line(a), SurfacePath::Line(b)) => a.is_match(b),
            (SurfacePath::Circle(a), SurfacePath::Circle(b)) => a.is_match(b),
            _ => false,
        }
    }

    /// The line of a straight path; for a circle, the line from its center
    /// along its first radius vector.
    pub open spec fn line(&self) -> Line<2> {
        match *self {
            SurfacePath::Line(line) => line,
            SurfacePath::Circle(circle) => Line { origin: circle.center, direction: circle.a },
        }
    }

    /// The path can be evaluated at `t`: it is a line or a circle that can be
    /// evaluated, and `t` is finite.
    pub open spec fn defined_at(&self, t: Point<1>) -> bool {
        match *self {
            SurfacePath::Line(line) => line.is_proper() && all_finite(t@),
            SurfacePath::Circle(circle) => circle.is_proper() && all_finite(t@),
        }
    }

    /// The coordinates of the point at path coordinate `t` of a straight
    /// path.
    pub open spec fn coords_at(&self, t: Point<1>) -> Seq<Scalar> {
        line_point(self.line().origin@, self.line().direction@, t@[0])
    }

    /// The surface point at path coordinate `t` of a straight path.
    pub open spec fn point_at(&self, t: Point<1>) -> Point<2> {
        point_with(self.coords_at(t))
    }

    /// The surface point at path coordinate `t`, where `found` is the point
    /// that evaluating a circle gave: on a straight path it is the point of
    /// the line, on a circle it is what was found.
    pub open spec fn evaluated(&self, t: Point<1>, found: Option<Point<2>>) -> Point<2> {
        match *self {
            SurfacePath::Line(_) => self.point_at(t),
            SurfacePath::Circle(_) => found.unwrap(),
        }
    }

    /// A circle around the origin can have the radius `radius`.
    pub open spec fn is_radius(radius: Scalar) -> bool {
        Circle::<2>::is_radius(radius)
    }

    /// The path is the circle around the origin with the given radius, which
    /// starts on the first axis.
    pub open spec fn is_circle_of(&self, radius: Scalar) -> bool {
        &&& *self is Circle
        &&& self->Circle_0.center@ == seq![scalar_of(0), scalar_of(0)]
        &&& self->Circle_0.a@ == seq![radius, scalar_of(0)]
        &&& self->Circle_0.b@ == seq![scalar_of(0), radius]
    }

    /// Whether a circle can have the radius `radius`.
    pub fn check_radius(radius: Scalar) -> (r: bool)
        ensures
            r == Self::is_radius(radius),
    {
        Circle::<2>::check_radius(radius)
    }

    /// The circle around the origin with the given radius, and the point at
    /// which it starts: the circle evaluated at 0. There is no circle if the
    /// radius is not finite, or too close to zero.
    pub fn circle_from_radius(radius: Scalar) -> (r: Option<(SurfacePath, Point<2>)>)
        ensures
            r.is_some() == Self::is_radius(radius),
            r.is_some() ==> r.unwrap().0.is_circle_of(radius),
            r.is_some() ==> r.unwrap().0.defined_at(Point { coords: [scalar_of(0)] }),
    {
        let zero = scalar(0);
        let origin = Point { coords: [zero, zero] };
        assert(origin@ =~= seq![scalar_of(0), scalar_of(0)]);
        let circle = match Circle::from_center_and_radius(&origin, radius) {
            Some(circle) => circle,
            None => {
                return None;
            },
        };
        let at = Point { coords: [zero] };
        assert(at.coords =~= [scalar_of(0)]);
        let start = circle.point_from_circle_coords(&at).unwrap();
        Some((SurfacePath::Circle(circle), start))
    }

    /// The straight path through two surface points, with the path coordinates
    /// of those points.
    pub fn line_from_points(a: &Point<2>, b: &Point<2>) -> (r: (SurfacePath, [Point<1>; 2]))
        requires
            Line::<2>::spanned_by(*a, *b),
        ensures
            r.0 is Line,
            r.0.line().origin == *a,
            r.0.line().direction@ == crate::math::difference(b@, a@),
            r.0.line().is_proper(),
            r.1@.len() == 2,
            r.1@[0]@ == seq![crate::math::scalar_of(0)],
            r.1@[1]@ == seq![crate::math::scalar_of(1)],
    {
        let (line, coords) = Line::from_points(a, b);
        (SurfacePath::Line(line), coords)
    }

    /// The surface point at path coordinate `t`, if the path can be evaluated
    /// there. On a straight path it is the point of the line; where it lies
    /// on a circle depends on how the machine computes sine and cosine.
    pub fn point_from_path_coords(&self, t: &Point<1>) -> (r: Option<Point<2>>)
        ensures
            r.is_some() == self.defined_at(*t),
            r.is_some() ==> r.unwrap() == self.evaluated(*t, r),
            r.is_some() && *self is Line ==> r.unwrap()@ == self.coords_at(*t),
    {
        match self {
            SurfacePath::Line(line) => {
                let r = line.point_from_line_coords(t);
                proof {
                    if r.is_some() {
                        lemma_point_with(r.unwrap());
                    }
                }
                r
            },
            SurfacePath::Circle(circle) => circle.point_from_circle_coords(t),
        }
    }
}

impl GlobalPath {
    /// `fj_math` regards the two paths as equal.
    pub open spec fn matches(&self, other: GlobalPath) -> bool {
        self.line().matches(other.line())
    }

    /// Whether `fj_math` regards the two paths as equal.
    pub fn is_match(&self, other: &GlobalPath) -> (r: bool)
        ensures
            r == self.matches(*other),
    {
        match (self, other) {
            (GlobalPath::Line(a), GlobalPath::Line(b)) => a.is_match(b),
        }
    }

    /// The line of the path.
    pub open spec fn line(&self) -> Line<3> {
        match *self {
            GlobalPath::Line(line) => line,
        }
    }

    /// The path can be evaluated at `t`.
    pub open spec fn defined_at(&self, t: Point<1>) -> bool {
        self.line().is_proper() && all_finite(t@)
    }

    /// The coordinates of the point at path coordinate `t`.
    pub open spec fn coords_at(&self, t: Point<1>) -> Seq<Scalar> {
        line_point(self.line().origin@, self.line().direction@, t@[0])
    }

    /// The straight path through two points in space, with the path
    /// coordinates of those points.
    pub fn line_from_points(a: &Point<3>, b: &Point<3>) -> (r: (GlobalPath, [Point<1>; 2]))
        requires
            Line::<3>::spanned_by(*a, *b),
        ensures
            r.0.line().origin == *a,
            r.0.line().direction@ == crate::math::difference(b@, a@),
            r.0.line().is_proper(),
            r.1@.len() == 2,
            r.1@[0]@ == seq![crate::math::scalar_of(0)],
            r.1@[1]@ == seq![crate::math::scalar_of(1)],
    {
        let (line, coords) = Line::from_points(a, b);
        (GlobalPath::Line(line), coords)
    }

    /// The point in space at path coordinate `t`, if the path can be evaluated
    /// there.
    pub fn point_from_path_coords(&self, t: &Point<1>) -> (r: Option<Point<3>>)
        ensures
            r.is_some() == self.defined_at(*t),
            r.is_some() ==> r.unwrap()@ == self.coords_at(*t),
    {
        match self {
            GlobalPath::Line(line) => line.point_from_line_coords(t),
        }
    }
}

impl SurfaceGeometry {
    /// `fj_math` regards the two geometries as equal.
    pub open spec fn matches(&self, other: SurfaceGeometry) -> bool {
        self.u.matches(other.u) && all_same(self.v@, other.v@)
    }

    /// Whether `fj_math` regards the two geometries as equal.
    pub fn is_match(&self, other: &SurfaceGeometry) -> (r: bool)
        ensures
            r == self.matches(*other),
    {
        self.u.is_match(&other.u) && self.v.same_as(&other.v)
    }

    /// The point on the `u` path that a surface point lies over.
    pub open spec fn foot(&self, p: Point<2>) -> Seq<Scalar> {
        line_point(self.u.line().origin@, self.u.line().direction@, p@[0])
    }

    /// The offset along `v` of a surface point.
    pub open spec fn rise(&self, p: Point<2>) -> Seq<Scalar> {
        scaled(self.v@, p@[1])
    }

    /// The surface can be evaluated at `p`: the path and the sweep vector are
    /// usable, and the two intermediate results are finite.
    pub open spec fn defined_at(&self, p: Point<2>) -> bool {
        &&& all_finite(p@)
        &&& self.u.line().is_proper()
        &&& all_finite(self.v@)
        &&& all_finite(self.foot(p))
        &&& all_finite(self.rise(p))
    }

    /// The coordinates in space of the surface point `p`: the point of the
    /// `u` path at `p`'s first coordinate, moved along `v` by `p`'s second.
    pub open spec fn coords_at(&self, p: Point<2>) -> Seq<Scalar> {
        translated(self.foot(p), self.rise(p))
    }

    /// The point in space of the surface point `p`.
    pub open spec fn point_at(&self, p: Point<2>) -> Point<3> {
        point_with(self.coords_at(p))
    }

    /// The point in space of the surface point `p`, if the surface can be
    /// evaluated there.
    pub fn point_from_surface_coords(&self, p: &Point<2>) -> (r: Option<Point<3>>)
        ensures
            r.is_some() == self.defined_at(*p),
            r.is_some() ==> r.unwrap()@ == self.coords_at(*p),
            r.is_some() ==> r.unwrap() == self.point_at(*p),
    {
        if !p.is_finite() {
            return None;
        }
        let on_path = match self.u.point_from_path_coords(&Point { coords: [p.coords[0]] }) {
            Some(point) => point,
            None => {
                return None;
            },
        };
        let along = match self.v.times(p.coords[1]) {
            Some(vector) => vector,
            None => {
                return None;
            },
        };
        let r = on_path.plus(&along);
        proof {
            if r.is_some() {
                lemma_point_with(r.unwrap());
            }
        }
        r
    }
}

} // verus!
