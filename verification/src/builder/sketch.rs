//! Building faces and sketches.

use vstd::prelude::*;
use crate::builder::cycle::{
    is_poly_chain, poly_chain_added, poly_chain_handles, CycleBuilder,
};
use crate::math::Point;
use crate::partial::cycle::{closed, PartialCycle};
use crate::partial::face::{PartialFace, PartialFaceView};
use crate::partial::face::lemma_face_remains;
use crate::partial::sketch::{faces_present, lemma_faces_remain, PartialSketch};
use crate::partial::{HalfEdgeHandle, Partials, PartialsView, SurfaceHandle};

verus! {

/// The face in `surface` that is bounded by a polygon and nothing else: its
/// exterior cycle has the half-edges of the polygon, and it has no interior
/// cycles and no color.
pub open spec fn polygon_face(surface: SurfaceHandle, he: nat, n: nat) -> PartialFaceView {
    PartialFaceView {
        surface: Some(surface),
        exterior: poly_chain_handles(he, n),
        interiors: Seq::empty(),
        color: None,
    }
}

impl PartialFace {
    /// Puts the face into `surface`, and replaces its exterior cycle by the
    /// polygon through the points, on that surface.
    pub fn update_exterior_as_polygon(
        &mut self,
        surface: SurfaceHandle,
        points: &Vec<Point<2>>,
        partials: &mut Partials,
    )
        requires
            old(partials)@.wf(),
            old(partials)@.has_surface(surface),
            is_poly_chain(points@),
        ensures
            final(self)@.surface == Some(surface),
            final(self)@.exterior == poly_chain_handles(
                old(partials)@.half_edges.len(),
                points@.len(),
            ),
            final(self)@.interiors == old(self)@.interiors,
            final(self)@.color == old(self)@.color,
            points@.len() < 2 ==> final(partials)@ == old(partials)@,
            points@.len() >= 2 ==> poly_chain_added(
                old(partials)@,
                final(partials)@,
                surface,
                points@,
            ),
            final(partials)@.wf(),
            final(partials)@.keeps_built(old(partials)@),
            old(partials)@.prefix_of(final(partials)@),
            closed(final(partials)@, final(self)@.exterior),
            old(self)@.wf_in(old(partials)@) ==> final(self)@.wf_in(final(partials)@),
    {
        let ghost face = self@;
        let ghost before = partials@;
        self.surface = Some(surface);
        self.exterior = PartialCycle::from_poly_chain(surface, points, partials);
        proof {
            assert(self@.interiors =~= face.interiors);
            if face.wf_in(before) {
                lemma_face_remains(before, partials@, face);
            }
        }
    }
}

/// Builder API for [`PartialSketch`]
pub trait SketchBuilder: Sized {
    /// The faces of the sketch, in order.
    spec fn face_views(&self) -> Seq<PartialFaceView>;

    /// Add a polygon to the sketch, created from the provided points
    ///
    /// The sketch gains one face, whose exterior cycle is the polygon through
    /// the points, on `surface`; the face has no interior cycles and no color.
    fn add_polygon_from_points(
        &mut self,
        surface: SurfaceHandle,
        points: &Vec<Point<2>>,
        partials: &mut Partials,
    )
        requires
            old(partials)@.wf(),
            old(partials)@.has_surface(surface),
            is_poly_chain(points@),
        ensures
            final(self).face_views() == old(self).face_views().push(
                polygon_face(surface, old(partials)@.half_edges.len(), points@.len()),
            ),
            points@.len() < 2 ==> final(partials)@ == old(partials)@,
            points@.len() >= 2 ==> poly_chain_added(
                old(partials)@,
                final(partials)@,
                surface,
                points@,
            ),
            final(partials)@.wf(),
            final(partials)@.keeps_built(old(partials)@),
            old(partials)@.prefix_of(final(partials)@),
            closed(
                final(partials)@,
                poly_chain_handles(old(partials)@.half_edges.len(), points@.len()),
            ),
            faces_present(old(partials)@, old(self).face_views()) ==> faces_present(
                final(partials)@,
                final(self).face_views(),
            ),
    ;
}

impl SketchBuilder for PartialSketch {
    open spec fn face_views(&self) -> Seq<PartialFaceView> {
        self@
    }

    fn add_polygon_from_points(
        &mut self,
        surface: SurfaceHandle,
        points: &Vec<Point<2>>,
        partials: &mut Partials,
    ) {
        let ghost faces = self@;
        let ghost before = partials@;
        let mut face = PartialFace::default();
        face.update_exterior_as_polygon(surface, points, partials);
        proof {
            assert(face@.interiors =~= Seq::<Seq<HalfEdgeHandle>>::empty());
            assert(face@ == polygon_face(surface, before.half_edges.len(), points@.len()));
        }
        let ghost added = face@;
        self.faces.push(face);
        proof {
            assert(self@ =~= faces.push(added));
            if faces_present(before, faces) {
                lemma_faces_remain(before, partials@, faces);
                assert forall|i: int| 0 <= i < self@.len() implies (#[trigger] self@[i]).wf_in(
                    partials@,
                ) by {
                    if i < faces.len() {
                        assert(self@[i] == faces[i]);
                    }
                }
            }
        }
    }
}

} // verus!
