//! Building surfaces.

use vstd::prelude::*;
use crate::geometry::{GlobalPath, SurfaceGeometry};
use crate::math::{
    all_finite, cross, cross_defined, difference, is_same, scalar, scalar_of, vanishes, Line,
    Point, Vector,
};
use crate::partial::surface::PartialSurface;

verus! {

/// Three points span a plane if the first spans a line with the second, and
/// with the third, and the two lines do not fall into one: the cross product
/// of the vector to the second and the vector to the third can be computed,
/// and has a length.
pub open spec fn span_plane(points: [Point<3>; 3]) -> bool {
    let to_second = difference(points[1]@, points[0]@);
    let to_third = difference(points[2]@, points[0]@);
    &&& Line::<3>::spanned_by(points[0], points[1])
    &&& Line::<3>::spanned_by(points[0], points[2])
    &&& cross_defined(to_second, to_third)
    &&& all_finite(cross(to_second, to_third))
    &&& !vanishes(cross(to_second, to_third))
}

/// Whether the three points span a plane.
pub fn check_span_plane(points: &[Point<3>; 3]) -> (r: bool)
    ensures
        r == span_plane(*points),
{
    if !Line::spans(&points[0], &points[1]) || !Line::spans(&points[0], &points[2]) {
        return false;
    }
    let to_second = points[1].minus(&points[0]).unwrap();
    let to_third = points[2].minus(&points[0]).unwrap();
    let normal = match to_second.cross(&to_third) {
        Some(v) => v,
        None => {
            return false;
        },
    };
    match normal.magnitude() {
        Some(length) => !is_same(length, scalar(0)),
        None => false,
    }
}

/// Builder API for [`PartialSurface`]
pub trait SurfaceBuilder: Sized {
    /// The geometry of the surface, if it is set.
    spec fn geometry_of(&self) -> Option<SurfaceGeometry>;

    /// Build a surface from its two axes
    fn from_axes(u: GlobalPath, v: Vector<3>) -> (surface: Self)
        ensures
            surface.geometry_of() == Some(SurfaceGeometry { u, v }),
    ;

    /// Construct a plane from 3 points, which must not lie on one line
    ///
    /// The `u` axis of the plane is the line from the first point through the
    /// second, its `v` axis the vector from the first point to the third. The
    /// surface coordinates of the three points are returned with the plane:
    /// (0, 0), (1, 0) and (0, 1).
    fn plane_from_points(points: [Point<3>; 3]) -> (r: (Self, [Point<2>; 3]))
        requires
            span_plane(points),
        ensures
            r.0.geometry_of().is_some(),
            r.0.geometry_of().unwrap().u.line().origin == points[0],
            r.0.geometry_of().unwrap().u.line().direction@ == difference(points[1]@, points[0]@),
            r.0.geometry_of().unwrap().u.line().is_proper(),
            r.0.geometry_of().unwrap().v@ == difference(points[2]@, points[0]@),
            r.1[0]@ == seq![scalar_of(0), scalar_of(0)],
            r.1[1]@ == seq![scalar_of(1), scalar_of(0)],
            r.1[2]@ == seq![scalar_of(0), scalar_of(1)],
    ;

    /// Construct a plane from 3 points, if they span one
    fn try_plane_from_points(points: [Point<3>; 3]) -> (r: Option<(Self, [Point<2>; 3])>)
        ensures
            r.is_some() == span_plane(points),
            r.is_some() ==> {
                let plane = r.unwrap().0;
                let coords = r.unwrap().1;
                &&& plane.geometry_of().is_some()
                &&& plane.geometry_of().unwrap().u.line().origin == points[0]
                &&& plane.geometry_of().unwrap().u.line().direction@ == difference(
                    points[1]@,
                    points[0]@,
                )
                &&& plane.geometry_of().unwrap().u.line().is_proper()
                &&& plane.geometry_of().unwrap().v@ == difference(points[2]@, points[0]@)
                &&& coords[0]@ == seq![scalar_of(0), scalar_of(0)]
                &&& coords[1]@ == seq![scalar_of(1), scalar_of(0)]
                &&& coords[2]@ == seq![scalar_of(0), scalar_of(1)]
            },
    ;
}

impl SurfaceBuilder for PartialSurface {
    open spec fn geometry_of(&self) -> Option<SurfaceGeometry> {
        self.geometry
    }

    fn from_axes(u: GlobalPath, v: Vector<3>) -> (surface: PartialSurface) {
        PartialSurface { geometry: Some(SurfaceGeometry { u, v }) }
    }

    fn plane_from_points(points: [Point<3>; 3]) -> (r: (PartialSurface, [Point<2>; 3])) {
        let a = points[0];
        let b = points[1];
        let c = points[2];
        let (u, u_coords) = GlobalPath::line_from_points(&a, &b);
        let v = c.minus(&a).unwrap();
        let t0 = u_coords[0].coords[0];
        let t1 = u_coords[1].coords[0];
        let zero = scalar(0);
        let one = scalar(1);
        let coords = [
            Point { coords: [t0, zero] },
            Point { coords: [t1, zero] },
            Point { coords: [t0, one] },
        ];
        assert(coords[0]@ =~= seq![scalar_of(0), scalar_of(0)]);
        assert(coords[1]@ =~= seq![scalar_of(1), scalar_of(0)]);
        assert(coords[2]@ =~= seq![scalar_of(0), scalar_of(1)]);
        (PartialSurface { geometry: Some(SurfaceGeometry { u, v }) }, coords)
    }

    fn try_plane_from_points(points: [Point<3>; 3]) -> (r: Option<(PartialSurface, [Point<2>; 3])>) {
        if check_span_plane(&points) {
            Some(Self::plane_from_points(points))
        } else {
            None
        }
    }
}

} // verus!
