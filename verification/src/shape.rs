//! Shapes that are described from outside, and what they are as objects.

use vstd::prelude::*;
use fj_interop::Color;
use fj_math::Scalar;
use crate::builder::cycle::{check_poly_chain, is_poly_chain, poly_chain_added, poly_chain_handles};
use crate::builder::half_edge::{circle_added, circle_from_radius};
use crate::geometry::SurfacePath;
use crate::interop::{color, rgba_of};
use crate::math::{bounding_box, coords_of, negate, negated, scalar, scalar_of, Aabb, Point};
use crate::objects::{place_of, xy_plane, FaceView, Objects, ObjectsView, SurfaceId};
use crate::partial::cache::{room, surface_derived, CacheView, FullToPartialCache};
use crate::partial::cycle::PartialCycle;
use crate::partial::face::{PartialFace, PartialFaceView};
use crate::partial::sketch::{sketch_built, PartialSketch};
use crate::partial::{
    viewed, BuildError, Built, HalfEdgeHandle, Partials, PartialsView, SurfaceHandle,
};

verus! {

/// A circle around the origin.
#[derive(Clone, Copy, Debug, PartialEq, Eq)]
pub struct Circle {
    pub radius: Scalar,
}

/// A step of a chain of line segments.
#[derive(Clone, Copy, Debug, PartialEq, Eq)]
pub enum SketchSegment {
    /// A line to a point.
    LineTo { point: Point<2> },
}

/// A closed chain of line segments.
#[derive(Clone, Debug, PartialEq, Eq)]
pub struct PolyChain {
    pub segments: Vec<SketchSegment>,
}

/// The outline of a sketch.
#[derive(Clone, Debug, PartialEq, Eq)]
pub enum Chain {
    Circle(Circle),
    PolyChain(PolyChain),
}

/// A flat shape in the plane of the first two axes, with a color.
#[derive(Clone, Debug, PartialEq, Eq)]
pub struct Sketch {
    pub chain: Chain,
    pub color: [u8; 4],
}

/// Why a shape is not turned into objects.
#[derive(Clone, Copy, Debug, PartialEq, Eq, Structural)]
pub enum ShapeError {
    /// The outline is degenerate: a circle whose radius is zero or not
    /// finite, or a chain in which two points in a row do not span a line.
    Degenerate,
    /// An object could not be built.
    Build(BuildError),
}

impl SketchSegment {
    /// The point that the step leads to.
    pub open spec fn end(&self) -> Point<2> {
        match *self {
            SketchSegment::LineTo { point } => point,
        }
    }
}

impl PolyChain {
    /// The points of the chain, in order.
    pub open spec fn corner_points(&self) -> Seq<Point<2>> {
        Seq::new(self.segments@.len(), |i: int| self.segments@[i].end())
    }

    /// The points of the chain, in order.
    pub fn points(&self) -> (r: Vec<Point<2>>)
        ensures
            r@ == self.corner_points(),
    {
        let mut r: Vec<Point<2>> = Vec::new();
        let mut i: usize = 0;
        while i < self.segments.len()
            invariant
                0 <= i <= self.segments@.len(),
                r@.len() == i,
                forall|k: int| 0 <= k < i ==> r@[k] == (#[trigger] self.segments@[k]).end(),
            decreases self.segments@.len() - i,
        {
            match self.segments[i] {
                SketchSegment::LineTo { point } => {
                    r.push(point);
                },
            }
            i = i + 1;
        }
        assert(r@ =~= self.corner_points());
        r
    }
}

/// The point of space that a point of the plane of the first two axes is.
pub open spec fn in_space(p: Point<2>) -> Seq<Scalar> {
    seq![p@[0], p@[1], scalar_of(0)]
}

/// The face that a sketch has: in `surface`, bounded by the half-edges
/// `exterior`, without interior cycles, and of the color `tint`.
pub open spec fn sketch_face(
    surface: SurfaceHandle,
    exterior: Seq<HalfEdgeHandle>,
    tint: Color,
) -> PartialFaceView {
    PartialFaceView { surface: Some(surface), exterior, interiors: Seq::empty(), color: Some(tint) }
}

/// The result of building a sketch, as a result of turning a shape into
/// objects.
pub open spec fn as_shape_result<T>(result: Result<T, BuildError>) -> Result<T, ShapeError> {
    match result {
        Ok(built) => Ok(built),
        Err(e) => Err(ShapeError::Build(e)),
    }
}

/// The result of turning a shape into objects, with the sketch replaced by its
/// contents.
pub open spec fn shape_viewed(result: Result<crate::objects::Sketch, ShapeError>) -> Result<
    Seq<FaceView>,
    ShapeError,
> {
    match result {
        Ok(sketch) => Ok(sketch@),
        Err(e) => Err(e),
    }
}

impl Sketch {
    /// The outline is not degenerate.
    pub open spec fn has_outline(&self) -> bool {
        match self.chain {
            Chain::Circle(circle) => SurfacePath::is_radius(circle.radius),
            Chain::PolyChain(chain) => is_poly_chain(chain.corner_points()),
        }
    }

    /// The arena `outlined` is the arena `before` with the outline of the
    /// sketch made in it, on `surface`, and `exterior` are the half-edges of
    /// the outline.
    pub open spec fn outline_added(
        &self,
        before: PartialsView,
        outlined: PartialsView,
        surface: SurfaceHandle,
        exterior: Seq<HalfEdgeHandle>,
    ) -> bool {
        match self.chain {
            Chain::Circle(circle) => {
                &&& circle_added(before, outlined, surface, circle.radius)
                &&& exterior == seq![HalfEdgeHandle { index: before.half_edges.len() as usize }]
            },
            Chain::PolyChain(chain) => {
                let points = chain.corner_points();
                &&& exterior == poly_chain_handles(before.half_edges.len(), points.len())
                &&& points.len() < 2 ==> outlined == before
                &&& points.len() >= 2 ==> poly_chain_added(before, outlined, surface, points)
            },
        }
    }

    /// What turning the sketch into objects does. The plane of the first two
    /// axes is put into the store, and a partial surface is derived from it.
    /// A degenerate outline ends it there. Else the outline is made on that
    /// surface, and the sketch with the one face that the outline bounds, in
    /// the color of the sketch, is built.
    pub open spec fn is_brep(
        &self,
        partials: PartialsView,
        objects: ObjectsView,
        after: PartialsView,
        stored: ObjectsView,
        result: Result<Seq<FaceView>, ShapeError>,
        outlined: PartialsView,
        exterior: Seq<HalfEdgeHandle>,
        tint: Color,
    ) -> bool {
        let plane = SurfaceId { index: place_of(objects.surfaces, xy_plane()) as usize };
        let with_plane = objects.with_surface(xy_plane());
        let derived = surface_derived(
            partials,
            CacheView {
                surfaces: Seq::empty(),
                curves: Seq::empty(),
                global_vertices: Seq::empty(),
                surface_vertices: Seq::empty(),
                vertices: Seq::empty(),
                half_edges: Seq::empty(),
            },
            with_plane,
            plane,
        );
        if !self.has_outline() {
            &&& after == derived.partials
            &&& stored == with_plane
            &&& result == Err::<Seq<FaceView>, ShapeError>(ShapeError::Degenerate)
        } else {
            let built = sketch_built(
                outlined,
                with_plane,
                seq![sketch_face(derived.result, exterior, tint)],
                after,
            );
            &&& self.outline_added(derived.partials, outlined, derived.result, exterior)
            &&& rgba_of(tint) == self.color@
            &&& after == built.partials
            &&& stored == built.objects
            &&& result == as_shape_result(built.result)
        }
    }

    /// Turns the sketch into objects: a sketch of one face in the plane of
    /// the first two axes.
    pub fn compute_brep(&self, partials: &mut Partials, objects: &mut Objects) -> (r: Result<
        crate::objects::Sketch,
        ShapeError,
    >)
        requires
            old(partials)@.ready(old(objects)@),
            room(old(partials)@, 0),
        ensures
            exists|outlined: PartialsView, exterior: Seq<HalfEdgeHandle>, tint: Color| #[trigger]
                self.is_brep(
                    old(partials)@,
                    old(objects)@,
                    final(partials)@,
                    final(objects)@,
                    shape_viewed(r),
                    outlined,
                    exterior,
                    tint,
                ),
            final(partials)@.ready(final(objects)@),
            old(objects)@.prefix_of(final(objects)@),
            r.is_ok() ==> self.has_outline(),
            !self.has_outline() ==> r == Err::<crate::objects::Sketch, ShapeError>(
                ShapeError::Degenerate,
            ),
    {
        let ghost start_partials = partials@;
        let ghost start_objects = objects@;
        let plane = objects.xy_plane();
        proof {
            crate::partial::lemma_built_within_grows(start_partials, start_objects, objects@);
        }
        let mut cache = FullToPartialCache::new();
        let surface = partials.surface_from_full(plane, &mut cache, objects);
        let ghost derived = partials@;
        let ghost with_plane = objects@;
        let tint = color(self.color);
        let face = match &self.chain {
            Chain::Circle(circle) => {
                if !SurfacePath::check_radius(circle.radius) {
                    proof {
                        assert(self.is_brep(
                            start_partials,
                            start_objects,
                            partials@,
                            objects@,
                            Err(ShapeError::Degenerate),
                            derived,
                            Seq::empty(),
                            tint,
                        ));
                    }
                    return Err(ShapeError::Degenerate);
                }
                let half_edge = circle_from_radius(partials, surface, circle.radius);
                let mut half_edges: Vec<HalfEdgeHandle> = Vec::new();
                half_edges.push(half_edge);
                assert(half_edges@ =~= seq![
                    HalfEdgeHandle { index: derived.half_edges.len() as usize },
                ]);
                PartialFace {
                    surface: Some(surface),
                    exterior: PartialCycle { half_edges },
                    interiors: Vec::new(),
                    color: Some(tint),
                }
            },
            Chain::PolyChain(chain) => {
                let points = chain.points();
                if !check_poly_chain(&points) {
                    proof {
                        assert(self.is_brep(
                            start_partials,
                            start_objects,
                            partials@,
                            objects@,
                            Err(ShapeError::Degenerate),
                            derived,
                            Seq::empty(),
                            tint,
                        ));
                    }
                    return Err(ShapeError::Degenerate);
                }
                let mut face = PartialFace::default();
                face.update_exterior_as_polygon(surface, &points, partials);
                face.color = Some(tint);
                face
            },
        };
        let ghost outlined = partials@;
        let ghost exterior = face@.exterior;
        proof {
            assert(face@.interiors =~= Seq::<Seq<HalfEdgeHandle>>::empty());
            assert(face@ == sketch_face(surface, exterior, tint));
            assert(self.outline_added(derived, outlined, surface, exterior));
        }
        let mut sketch = PartialSketch::default();
        sketch.faces.push(face);
        proof {
            assert(sketch@ =~= seq![sketch_face(surface, exterior, tint)]);
            assert(sketch@[0].wf_in(outlined));
        }
        let built = sketch.try_build(partials, objects);
        proof {
            crate::objects::lemma_prefix_transitive(start_objects, with_plane, objects@);
        }
        match built {
            Ok(sketch) => {
                proof {
                    assert(self.is_brep(
                        start_partials,
                        start_objects,
                        partials@,
                        objects@,
                        Ok(sketch@),
                        outlined,
                        exterior,
                        tint,
                    ));
                }
                Ok(sketch)
            },
            Err(e) => {
                proof {
                    assert(self.is_brep(
                        start_partials,
                        start_objects,
                        partials@,
                        objects@,
                        Err(ShapeError::Build(e)),
                        outlined,
                        exterior,
                        tint,
                    ));
                }
                Err(ShapeError::Build(e))
            },
        }
    }

    /// The sketch has an extent: its chain, if it is one, has a point.
    pub open spec fn has_extent(&self) -> bool {
        match self.chain {
            Chain::Circle(_) => true,
            Chain::PolyChain(chain) => chain.segments@.len() > 0,
        }
    }

    /// The least and the greatest corner of the bounding volume: for a circle
    /// of radius `r`, the corners `(-r, -r, 0)` and `(r, r, 0)`; for a chain,
    /// the corners of the smallest box that holds its points.
    pub open spec fn bounds(&self) -> (Seq<Scalar>, Seq<Scalar>) {
        match self.chain {
            Chain::Circle(circle) => (
                seq![negated(circle.radius), negated(circle.radius), scalar_of(0)],
                seq![circle.radius, circle.radius, scalar_of(0)],
            ),
            Chain::PolyChain(chain) => bounding_box(
                Seq::new(chain.segments@.len(), |i: int| in_space(chain.segments@[i].end())),
            ),
        }
    }

    /// The smallest box with sides along the axes that holds the sketch.
    pub fn bounding_volume(&self) -> (r: Aabb<3>)
        requires
            self.has_extent(),
        ensures
            (r.min@, r.max@) == self.bounds(),
            self.chain is PolyChain ==> forall|i: int|
                0 <= i < self.chain->PolyChain_0.segments@.len() ==> r.holds(
                    in_space((#[trigger] self.chain->PolyChain_0.segments@[i]).end()),
                ),
    {
        match &self.chain {
            Chain::Circle(circle) => {
                let low = negate(circle.radius);
                let zero = scalar(0);
                let r = Aabb {
                    min: Point { coords: [low, low, zero] },
                    max: Point { coords: [circle.radius, circle.radius, zero] },
                };
                assert(r.min@ =~= self.bounds().0);
                assert(r.max@ =~= self.bounds().1);
                r
            },
            Chain::PolyChain(chain) => {
                let mut points: Vec<Point<3>> = Vec::new();
                let mut i: usize = 0;
                while i < chain.segments.len()
                    invariant
                        0 <= i <= chain.segments@.len(),
                        points@.len() == i,
                        forall|k: int|
                            0 <= k < i ==> (#[trigger] points@[k])@ == in_space(
                                chain.segments@[k].end(),
                            ),
                    decreases chain.segments@.len() - i,
                {
                    match chain.segments[i] {
                        SketchSegment::LineTo { point } => {
                            points.push(point.to_xyz());
                        },
                    }
                    i = i + 1;
                }
                assert(coords_of(points@) =~= Seq::new(
                    chain.segments@.len(),
                    |i: int| in_space(chain.segments@[i].end()),
                ));
                let r = Aabb::from_points(&points);
                assert forall|i: int| 0 <= i < chain.segments@.len() implies r.holds(
                    in_space((#[trigger] chain.segments@[i]).end()),
                ) by {
                    assert(r.holds(points@[i]@));
                }
                r
            },
        }
    }

    /// The smallest box with sides along the axes that holds the sketch, if
    /// the sketch has an extent.
    pub fn try_bounding_volume(&self) -> (r: Option<Aabb<3>>)
        ensures
            r.is_some() == self.has_extent(),
            r.is_some() ==> (r.unwrap().min@, r.unwrap().max@) == self.bounds(),
            r.is_some() && self.chain is PolyChain ==> forall|i: int|
                0 <= i < self.chain->PolyChain_0.segments@.len() ==> r.unwrap().holds(
                    in_space((#[trigger] self.chain->PolyChain_0.segments@[i]).end()),
                ),
    {
        let extent = match &self.chain {
            Chain::Circle(_) => true,
            Chain::PolyChain(chain) => chain.segments.len() > 0,
        };
        if extent {
            Some(self.bounding_volume())
        } else {
            None
        }
    }
}

} // verus!
