//! Partial half-edges.

use vstd::prelude::*;
use crate::objects::{
    lemma_prefix_transitive, place_of, HalfEdge, HalfEdgeId, Objects, ObjectsView,
};
use crate::partial::curve::PartialCurve;
use crate::partial::surface::PartialSurface;
use crate::partial::vertex::{
    global_vertex_built, vertex_built, PartialGlobalVertex, PartialSurfaceVertex, PartialVertex,
};
use crate::partial::{
    lemma_positions_kept, lemma_same_forms_keep, BuildError, Built, CurveHandle,
    GlobalVertexHandle, HalfEdgeHandle, Partials, PartialsView, Slot, SurfaceHandle,
    SurfaceVertexHandle, VertexHandle,
};

verus! {

/// A partial half-edge.
#[derive(Clone, Copy, Debug, PartialEq, Eq)]
pub struct PartialHalfEdge {
    /// The vertices that bound the half-edge on the curve: back, then front
    pub vertices: [VertexHandle; 2],
    /// The global vertices that the two vertices stand for
    pub global_form: [GlobalVertexHandle; 2],
}

impl PartialHalfEdge {
    /// The handles of the partial half-edge refer to places of the arena.
    pub open spec fn wf_in(&self, partials: PartialsView) -> bool {
        &&& partials.has_vertex(self.vertices[0])
        &&& partials.has_vertex(self.vertices[1])
        &&& partials.has_global_vertex(self.global_form[0])
        &&& partials.has_global_vertex(self.global_form[1])
    }

    /// The arena after the parts of a default half-edge were made in it: a
    /// new surface without geometry; a new curve without path in it; and, for
    /// the back and then for the front, a new global vertex, a new surface
    /// vertex in the new surface that stands for it, and a new vertex on the
    /// new curve with that surface form. None of them has a position.
    pub open spec fn default_in(partials: PartialsView) -> PartialsView {
        let surface = SurfaceHandle { index: partials.surfaces.len() as usize };
        let curve = CurveHandle { index: partials.curves.len() as usize };
        let g0 = GlobalVertexHandle { index: partials.global_vertices.len() as usize };
        let g1 = GlobalVertexHandle { index: (partials.global_vertices.len() + 1) as usize };
        let s0 = SurfaceVertexHandle { index: partials.surface_vertices.len() as usize };
        let s1 = SurfaceVertexHandle { index: (partials.surface_vertices.len() + 1) as usize };
        partials.with_surface(PartialSurface { geometry: None }).with_curve(
            PartialCurve { path: None, surface },
        ).with_global_vertex(PartialGlobalVertex { position: None }).with_surface_vertex(
            PartialSurfaceVertex { position: None, surface, global_form: g0 },
        ).with_vertex(
            PartialVertex { position: None, curve, surface_form: s0 },
        ).with_global_vertex(PartialGlobalVertex { position: None }).with_surface_vertex(
            PartialSurfaceVertex { position: None, surface, global_form: g1 },
        ).with_vertex(PartialVertex { position: None, curve, surface_form: s1 })
    }

    /// The default half-edge made in the arena `partials`: it joins the two
    /// new vertices, and its global form holds the two new global vertices.
    pub open spec fn default_of(partials: PartialsView) -> PartialHalfEdge {
        PartialHalfEdge {
            vertices: [
                VertexHandle { index: partials.vertices.len() as usize },
                VertexHandle { index: (partials.vertices.len() + 1) as usize },
            ],
            global_form: [
                GlobalVertexHandle { index: partials.global_vertices.len() as usize },
                GlobalVertexHandle { index: (partials.global_vertices.len() + 1) as usize },
            ],
        }
    }

    /// A half-edge between two new vertices without position, on a new curve
    /// without path.
    pub fn default(partials: &mut Partials) -> (r: PartialHalfEdge)
        ensures
            final(partials)@ == Self::default_in(old(partials)@),
            r == Self::default_of(old(partials)@),
            r.wf_in(final(partials)@),
            old(partials)@.wf() ==> final(partials)@.wf(),
            final(partials)@.keeps_built(old(partials)@),
    {
        let surface = partials.insert_surface(PartialSurface { geometry: None });
        let curve = partials.insert_curve(PartialCurve { path: None, surface });
        let g0 = partials.insert_global_vertex(PartialGlobalVertex { position: None });
        let s0 = partials.insert_surface_vertex(
            PartialSurfaceVertex { position: None, surface, global_form: g0 },
        );
        let v0 = partials.insert_vertex(PartialVertex { position: None, curve, surface_form: s0 });
        let g1 = partials.insert_global_vertex(PartialGlobalVertex { position: None });
        let s1 = partials.insert_surface_vertex(
            PartialSurfaceVertex { position: None, surface, global_form: g1 },
        );
        let v1 = partials.insert_vertex(PartialVertex { position: None, curve, surface_form: s1 });
        let r = PartialHalfEdge { vertices: [v0, v1], global_form: [g0, g1] };
        assert(r.vertices =~= Self::default_of(old(partials)@).vertices);
        assert(r.global_form =~= Self::default_of(old(partials)@).global_form);
        r
    }
}

impl PartialHalfEdge {
    /// What building this partial half-edge does: its back vertex, its front
    /// vertex, and the two global vertices of its global form are built, in
    /// this order, and the half-edge joins what was built. `outcome` is the
    /// arena in which the build ended.
    #[verifier::opaque]
    pub open spec fn built(
        self,
        partials: PartialsView,
        objects: ObjectsView,
        outcome: PartialsView,
    ) -> Built<HalfEdge> {
        let back = vertex_built(partials, objects, self.vertices[0], outcome);
        match back.result {
            Err(e) => Built { partials: back.partials, objects: back.objects, result: Err(e) },
            Ok(v0) => {
                let front = vertex_built(back.partials, back.objects, self.vertices[1], outcome);
                match front.result {
                    Err(e) => Built {
                        partials: front.partials,
                        objects: front.objects,
                        result: Err(e),
                    },
                    Ok(v1) => {
                        let first = global_vertex_built(
                            front.partials,
                            front.objects,
                            self.global_form[0],
                        );
                        match first.result {
                            Err(e) => Built {
                                partials: first.partials,
                                objects: first.objects,
                                result: Err(e),
                            },
                            Ok(g0) => {
                                let second = global_vertex_built(
                                    first.partials,
                                    first.objects,
                                    self.global_form[1],
                                );
                                match second.result {
                                    Err(e) => Built {
                                        partials: second.partials,
                                        objects: second.objects,
                                        result: Err(e),
                                    },
                                    Ok(g1) => Built {
                                        partials: second.partials,
                                        objects: second.objects,
                                        result: Ok(
                                            HalfEdge { vertices: [v0, v1], global_form: [g0, g1] },
                                        ),
                                    },
                                }
                            },
                        }
                    },
                }
            },
        }
    }

    /// Builds the half-edge, which must be one that can be built: whatever
    /// points are found on the paths of its curves, nothing is missing.
    pub fn build(self, partials: &mut Partials, objects: &mut Objects) -> (r: HalfEdge)
        requires
            old(partials)@.ready(old(objects)@),
            self.wf_in(old(partials)@),
            forall|outcome: PartialsView|
                (#[trigger] self.built(old(partials)@, old(objects)@, outcome)).result.is_ok(),
        ensures
            (Built {
                partials: final(partials)@,
                objects: final(objects)@,
                result: Ok::<HalfEdge, BuildError>(r),
            }) == self.built(old(partials)@, old(objects)@, final(partials)@),
            forall|outcome: PartialsView| #[trigger]
                final(partials)@.positions_kept_in(outcome) ==> (Built {
                    partials: final(partials)@,
                    objects: final(objects)@,
                    result: Ok::<HalfEdge, BuildError>(r),
                }) == self.built(old(partials)@, old(objects)@, outcome),
            final(partials)@.ready(final(objects)@),
            old(objects)@.prefix_of(final(objects)@),
            old(partials)@.within(final(partials)@) && final(partials)@.within(old(partials)@),
            old(partials)@.positions_kept_in(final(partials)@),
    {
        let built = self.try_build(partials, objects);
        assert((self.built(old(partials)@, old(objects)@, partials@)).result.is_ok());
        built.unwrap()
    }

    /// Builds the half-edge, building its vertices and its global form on the
    /// way.
    pub fn try_build(self, partials: &mut Partials, objects: &mut Objects) -> (r: Result<
        HalfEdge,
        BuildError,
    >)
        requires
            old(partials)@.ready(old(objects)@),
            self.wf_in(old(partials)@),
        ensures
            (Built { partials: final(partials)@, objects: final(objects)@, result: r })
                == self.built(old(partials)@, old(objects)@, final(partials)@),
            forall|outcome: PartialsView| #[trigger]
                final(partials)@.positions_kept_in(outcome) ==> (Built {
                    partials: final(partials)@,
                    objects: final(objects)@,
                    result: r,
                }) == self.built(old(partials)@, old(objects)@, outcome),
            final(partials)@.ready(final(objects)@),
            old(objects)@.prefix_of(final(objects)@),
            old(partials)@.within(final(partials)@) && final(partials)@.within(old(partials)@),
            old(partials)@.positions_kept_in(final(partials)@),
            r.is_ok() ==> r.unwrap().vertices[0].index < final(objects)@.vertices.len()
                && r.unwrap().vertices[1].index < final(objects)@.vertices.len()
                && r.unwrap().global_form[0].index < final(objects)@.global_vertices.len()
                && r.unwrap().global_form[1].index < final(objects)@.global_vertices.len(),
    {
        reveal(PartialHalfEdge::built);
        let ghost s0 = partials@;
        let ghost o0 = objects@;
        let r0 = partials.build_vertex(self.vertices[0], objects);
        let ghost s1 = partials@;
        let ghost o1 = objects@;
        let v0 = match r0 {
            Ok(id) => id,
            Err(e) => {
                proof {
                    lemma_same_forms_keep(s1, s1);
                }
                return Err(e);
            },
        };
        let r1 = partials.build_vertex(self.vertices[1], objects);
        let ghost s2 = partials@;
        let ghost o2 = objects@;
        proof {
            lemma_positions_kept(s0, s1, s2);
            lemma_prefix_transitive(o0, o1, o2);
        }
        let v1 = match r1 {
            Ok(id) => id,
            Err(e) => {
                proof {
                    assert forall|outcome: PartialsView| #[trigger]
                        s2.positions_kept_in(outcome) implies (Built {
                        partials: s2,
                        objects: o2,
                        result: Err::<HalfEdge, BuildError>(e),
                    }) == self.built(s0, o0, outcome) by {
                        lemma_positions_kept(s1, s2, outcome);
                    }
                    lemma_same_forms_keep(s2, s2);
                }
                return Err(e);
            },
        };
        let r2 = partials.build_global_vertex(self.global_form[0], objects);
        let ghost s3 = partials@;
        let ghost o3 = objects@;
        proof {
            lemma_same_forms_keep(s2, s3);
            lemma_positions_kept(s0, s2, s3);
            lemma_prefix_transitive(o0, o2, o3);
        }
        let g0 = match r2 {
            Ok(id) => id,
            Err(e) => {
                proof {
                    assert forall|outcome: PartialsView| #[trigger]
                        s3.positions_kept_in(outcome) implies (Built {
                        partials: s3,
                        objects: o3,
                        result: Err::<HalfEdge, BuildError>(e),
                    }) == self.built(s0, o0, outcome) by {
                        lemma_positions_kept(s2, s3, outcome);
                        lemma_positions_kept(s1, s2, outcome);
                    }
                    lemma_same_forms_keep(s3, s3);
                }
                return Err(e);
            },
        };
        let r3 = partials.build_global_vertex(self.global_form[1], objects);
        let ghost s4 = partials@;
        let ghost o4 = objects@;
        let r = match r3 {
            Ok(g1) => Ok(HalfEdge { vertices: [v0, v1], global_form: [g0, g1] }),
            Err(e) => Err(e),
        };
        proof {
            lemma_same_forms_keep(s3, s4);
            lemma_positions_kept(s2, s3, s4);
            lemma_positions_kept(s0, s2, s4);
            lemma_prefix_transitive(o0, o3, o4);
            assert forall|outcome: PartialsView| #[trigger]
                s4.positions_kept_in(outcome) implies (Built {
                partials: s4,
                objects: o4,
                result: r,
            }) == self.built(s0, o0, outcome) by {
                lemma_positions_kept(s2, s4, outcome);
                lemma_positions_kept(s1, s2, outcome);
            }
            lemma_same_forms_keep(s4, s4);
        }
        r
    }
}

/// What building the half-edge that `h` refers to does. If the place
/// remembers a full half-edge, that one is the result and nothing changes.
/// Else the half-edge is built from the partial one and put into the store,
/// and the place remembers it. `outcome` is the arena in which the build
/// ended.
#[verifier::opaque]
pub open spec fn half_edge_built(
    partials: PartialsView,
    objects: ObjectsView,
    h: HalfEdgeHandle,
    outcome: PartialsView,
) -> Built<HalfEdgeId> {
    match partials.half_edges[h.index as int].full {
        Some(id) => Built { partials, objects, result: Ok(id) },
        None => {
            let b = partials.half_edge(h).built(partials, objects, outcome);
            match b.result {
                Err(e) => Built { partials: b.partials, objects: b.objects, result: Err(e) },
                Ok(edge) => {
                    let id = HalfEdgeId { index: place_of(b.objects.half_edges, edge) as usize };
                    Built {
                        partials: b.partials.remember_half_edge(h, id),
                        objects: b.objects.with_half_edge(edge),
                        result: Ok(id),
                    }
                },
            }
        },
    }
}

impl Partials {
    /// Builds the half-edge that `h` refers to, or returns the one that was
    /// built from it before.
    pub fn build_half_edge(&mut self, h: HalfEdgeHandle, objects: &mut Objects) -> (r: Result<
        HalfEdgeId,
        BuildError,
    >)
        requires
            old(self)@.ready(old(objects)@),
            old(self)@.has_half_edge(h),
        ensures
            (Built { partials: final(self)@, objects: final(objects)@, result: r })
                == half_edge_built(old(self)@, old(objects)@, h, final(self)@),
            forall|outcome: PartialsView| #[trigger]
                final(self)@.positions_kept_in(outcome) ==> (Built {
                    partials: final(self)@,
                    objects: final(objects)@,
                    result: r,
                }) == half_edge_built(old(self)@, old(objects)@, h, outcome),
            final(self)@.ready(final(objects)@),
            old(objects)@.prefix_of(final(objects)@),
            old(self)@.within(final(self)@) && final(self)@.within(old(self)@),
            old(self)@.positions_kept_in(final(self)@),
            r.is_ok() ==> final(self)@.half_edges[h.index as int].full == Some(r.unwrap())
                && r.unwrap().index < final(objects)@.half_edges.len(),
    {
        reveal(half_edge_built);
        let slot = self.half_edges[h.index];
        match slot.full {
            Some(id) => {
                proof {
                    lemma_same_forms_keep(self@, self@);
                }
                Ok(id)
            },
            None => {
                let built = slot.partial.try_build(self, objects);
                let ghost middle = self@;
                let ghost middle_objects = objects@;
                match built {
                    Err(e) => Err(e),
                    Ok(edge) => {
                        let id = objects.insert_half_edge(edge);
                        let partial = self.half_edges[h.index].partial;
                        self.half_edges.set(h.index, Slot { partial, full: Some(id) });
                        proof {
                            lemma_prefix_transitive(old(objects)@, middle_objects, objects@);
                            assert(self@.surface_vertices == middle.surface_vertices);
                            assert forall|outcome: PartialsView| #[trigger]
                                self@.positions_kept_in(outcome) implies (Built {
                                partials: self@,
                                objects: objects@,
                                result: Ok::<HalfEdgeId, BuildError>(id),
                            }) == half_edge_built(old(self)@, old(objects)@, h, outcome) by {
                                assert(middle.positions_kept_in(outcome));
                            }
                            lemma_same_forms_keep(self@, self@);
                        }
                        Ok(id)
                    },
                }
            },
        }
    }
}

} // verus!
