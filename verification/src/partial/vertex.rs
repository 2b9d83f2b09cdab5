//! Partial vertices, in their three forms.

use vstd::prelude::*;
use crate::math::Point;
use crate::objects::{
    place_of, GlobalVertex, GlobalVertexId, Objects, ObjectsView, SurfaceVertex, SurfaceVertexId,
    Vertex, VertexId,
};
use crate::partial::{
    lemma_positions_kept, lemma_same_forms_keep, BuildError, Built, CurveHandle, Entity, Field,
    GlobalVertexHandle, Partials, PartialsView, Slot, SurfaceHandle, SurfaceVertexHandle,
    VertexHandle,
};
use crate::partial::curve::{curve_built, PartialCurve};
use crate::partial::surface::{surface_built, PartialSurface};

verus! {

/// A partial vertex on a curve.
#[derive(Clone, Copy, Debug, PartialEq, Eq)]
pub struct PartialVertex {
    /// The position of the vertex on the curve
    pub position: Option<Point<1>>,
    /// The curve that the vertex is defined in
    pub curve: CurveHandle,
    /// The surface form of the vertex
    pub surface_form: SurfaceVertexHandle,
}

/// A partial vertex on a surface.
#[derive(Clone, Copy, Debug, PartialEq, Eq)]
pub struct PartialSurfaceVertex {
    /// The position of the vertex on the surface
    pub position: Option<Point<2>>,
    /// The surface that the vertex is defined in
    pub surface: SurfaceHandle,
    /// The global form of the vertex
    pub global_form: GlobalVertexHandle,
}

/// A partial vertex in space.
#[derive(Clone, Copy, Debug, PartialEq, Eq)]
pub struct PartialGlobalVertex {
    /// The position of the vertex
    pub position: Option<Point<3>>,
}

impl PartialVertex {
    /// The handles of the partial vertex refer to places of the arena.
    pub open spec fn wf_in(&self, partials: PartialsView) -> bool {
        partials.has_curve(self.curve) && partials.has_surface_vertex(self.surface_form)
    }

    /// The arena after a default vertex was made in it: a new surface, a new
    /// curve and a new surface vertex in that surface, and a new global vertex
    /// for the surface vertex.
    pub open spec fn default_in(partials: PartialsView) -> PartialsView {
        partials.with_surface(PartialSurface { geometry: None }).with_curve(
            PartialCurve {
                path: None,
                surface: SurfaceHandle { index: partials.surfaces.len() as usize },
            },
        ).with_global_vertex(PartialGlobalVertex { position: None }).with_surface_vertex(
            PartialSurfaceVertex {
                position: None,
                surface: SurfaceHandle { index: partials.surfaces.len() as usize },
                global_form: GlobalVertexHandle { index: partials.global_vertices.len() as usize },
            },
        )
    }

    /// A vertex without a position, on a new curve and with a new surface
    /// form, which lie in the same new surface.
    pub fn default(partials: &mut Partials) -> (r: PartialVertex)
        ensures
            r.position.is_none(),
            r.curve.index == old(partials)@.curves.len(),
            r.surface_form.index == old(partials)@.surface_vertices.len(),
            final(partials)@ == Self::default_in(old(partials)@),
            r.wf_in(final(partials)@),
            final(partials)@.keeps_built(old(partials)@),
            old(partials)@.wf() ==> final(partials)@.wf(),
    {
        let surface = partials.insert_surface(PartialSurface { geometry: None });
        let curve = partials.insert_curve(PartialCurve { path: None, surface });
        let global_form = partials.insert_global_vertex(PartialGlobalVertex { position: None });
        let surface_form = partials.insert_surface_vertex(
            PartialSurfaceVertex { position: None, surface, global_form },
        );
        PartialVertex { position: None, curve, surface_form }
    }
}

impl PartialSurfaceVertex {
    /// The handles of the partial surface vertex refer to places of the arena.
    pub open spec fn wf_in(&self, partials: PartialsView) -> bool {
        partials.has_surface(self.surface) && partials.has_global_vertex(self.global_form)
    }

    /// A surface vertex without a position, in a new surface and with a new
    /// global form.
    pub fn default(partials: &mut Partials) -> (r: PartialSurfaceVertex)
        ensures
            r.position.is_none(),
            r.surface.index == old(partials)@.surfaces.len(),
            r.global_form.index == old(partials)@.global_vertices.len(),
            final(partials)@ == old(partials)@.with_surface(
                PartialSurface { geometry: None },
            ).with_global_vertex(PartialGlobalVertex { position: None }),
            r.wf_in(final(partials)@),
            final(partials)@.keeps_built(old(partials)@),
            old(partials)@.wf() ==> final(partials)@.wf(),
    {
        let surface = partials.insert_surface(PartialSurface { geometry: None });
        let global_form = partials.insert_global_vertex(PartialGlobalVertex { position: None });
        PartialSurfaceVertex { position: None, surface, global_form }
    }
}

impl PartialGlobalVertex {
    /// A global vertex without a position.
    pub fn default() -> (r: PartialGlobalVertex)
        ensures
            r.position.is_none(),
    {
        PartialGlobalVertex { position: None }
    }

    /// The global vertex that is built from this partial one: the one at its
    /// position, which must be set.
    pub open spec fn built(self) -> Result<GlobalVertex, BuildError> {
        match self.position {
            Some(position) => Ok(GlobalVertex { position }),
            None => Err(
                BuildError::Missing { entity: Entity::GlobalVertex, field: Field::Position },
            ),
        }
    }

    /// Builds the global vertex, if it has its position. The store is not
    /// needed for that, and is left as it is.
    pub fn try_build(self, objects: &mut Objects) -> (r: Result<GlobalVertex, BuildError>)
        ensures
            r == self.built(),
            final(objects)@ == old(objects)@,
    {
        match self.position {
            Some(position) => Ok(GlobalVertex { position }),
            None => Err(
                BuildError::Missing { entity: Entity::GlobalVertex, field: Field::Position },
            ),
        }
    }

    /// Builds the global vertex, which must have its position. The store is
    /// not needed for that, and is left as it is.
    pub fn build(self, objects: &mut Objects) -> (r: GlobalVertex)
        requires
            self.position.is_some(),
        ensures
            r == (GlobalVertex { position: self.position.unwrap() }),
            Ok::<GlobalVertex, BuildError>(r) == self.built(),
            final(objects)@ == old(objects)@,
    {
        GlobalVertex { position: self.position.unwrap() }
    }
}

/// What building the global vertex that `h` refers to does. If the place
/// remembers a full global vertex, that one is the result and nothing changes.
/// Else the global vertex is built from the partial one and put into the
/// store, and the place remembers it.
#[verifier::opaque]
pub open spec fn global_vertex_built(
    partials: PartialsView,
    objects: ObjectsView,
    h: GlobalVertexHandle,
) -> Built<GlobalVertexId> {
    match partials.global_vertices[h.index as int].full {
        Some(id) => Built { partials, objects, result: Ok(id) },
        None => match partials.global_vertex(h).built() {
            Err(e) => Built { partials, objects, result: Err(e) },
            Ok(vertex) => {
                let id = GlobalVertexId {
                    index: place_of(objects.global_vertices, vertex) as usize,
                };
                Built {
                    partials: partials.remember_global_vertex(h, id),
                    objects: objects.with_global_vertex(vertex),
                    result: Ok(id),
                }
            },
        },
    }
}

/// The arena after the global position of a partial surface vertex was
/// inferred, where that is called for and possible. Where the global form has
/// a position, nothing is inferred. Else the position of the surface vertex
/// and the geometry of its surface must be set, and the surface must be
/// defined at that position: the global form then gets the point of the
/// surface there.
pub open spec fn global_position_inferred(
    partials: PartialsView,
    vertex: PartialSurfaceVertex,
) -> Result<PartialsView, BuildError> {
    if partials.global_vertex(vertex.global_form).position.is_some() {
        Ok(partials)
    } else {
        match vertex.position {
            None => Err(
                BuildError::Missing { entity: Entity::SurfaceVertex, field: Field::Position },
            ),
            Some(position) => match partials.surface(vertex.surface).geometry {
                None => Err(
                    BuildError::Missing { entity: Entity::Surface, field: Field::Geometry },
                ),
                Some(geometry) => if geometry.defined_at(position) {
                    Ok(
                        partials.set_global_vertex(
                            vertex.global_form,
                            PartialGlobalVertex { position: Some(geometry.point_at(position)) },
                        ),
                    )
                } else {
                    Err(
                        BuildError::CannotInfer {
                            entity: Entity::GlobalVertex,
                            field: Field::Position,
                        },
                    )
                },
            },
        }
    }
}

impl PartialSurfaceVertex {
    /// What building this partial surface vertex does. First the global
    /// position is inferred, if it is not set. Then the position of the
    /// surface vertex must be set; its surface and its global form are built,
    /// in this order, and the surface vertex has that position, in that
    /// surface, with that global form.
    #[verifier::opaque]
    pub open spec fn built(self, partials: PartialsView, objects: ObjectsView) -> Built<
        SurfaceVertex,
    > {
        match global_position_inferred(partials, self) {
            Err(e) => Built { partials, objects, result: Err(e) },
            Ok(inferred) => match self.position {
                None => Built {
                    partials: inferred,
                    objects,
                    result: Err(
                        BuildError::Missing {
                            entity: Entity::SurfaceVertex,
                            field: Field::Position,
                        },
                    ),
                },
                Some(position) => {
                    let s = surface_built(inferred, objects, self.surface);
                    match s.result {
                        Err(e) => Built {
                            partials: s.partials,
                            objects: s.objects,
                            result: Err(e),
                        },
                        Ok(surface) => {
                            let g = global_vertex_built(s.partials, s.objects, self.global_form);
                            match g.result {
                                Err(e) => Built {
                                    partials: g.partials,
                                    objects: g.objects,
                                    result: Err(e),
                                },
                                Ok(global_form) => Built {
                                    partials: g.partials,
                                    objects: g.objects,
                                    result: Ok(SurfaceVertex { position, surface, global_form }),
                                },
                            }
                        },
                    }
                },
            },
        }
    }

    /// Sets the position of the global form to the point of the surface at the
    /// position of this surface vertex, unless the global form has a position.
    pub fn infer_global_position(self, partials: &mut Partials) -> (r: Result<(), BuildError>)
        requires
            old(partials)@.wf(),
            self.wf_in(old(partials)@),
        ensures
            match global_position_inferred(old(partials)@, self) {
                Ok(inferred) => r.is_ok() && final(partials)@ == inferred,
                Err(e) => r == Err::<(), BuildError>(e) && final(partials)@ == old(partials)@,
            },
            final(partials)@.wf(),
            old(partials)@.within(final(partials)@) && final(partials)@.within(old(partials)@),
            forall|objects: ObjectsView|
                old(partials)@.built_within(objects) ==> final(partials)@.built_within(objects),
            final(partials)@.surface_vertices == old(partials)@.surface_vertices,
    {
        if partials.read_global_vertex(self.global_form).position.is_some() {
            return Ok(());
        }
        let position = match self.position {
            Some(position) => position,
            None => {
                return Err(
                    BuildError::Missing { entity: Entity::SurfaceVertex, field: Field::Position },
                );
            },
        };
        let geometry = match partials.read_surface(self.surface).geometry {
            Some(geometry) => geometry,
            None => {
                return Err(
                    BuildError::Missing { entity: Entity::Surface, field: Field::Geometry },
                );
            },
        };
        match geometry.point_from_surface_coords(&position) {
            Some(point) => {
                partials.write_global_vertex(
                    self.global_form,
                    PartialGlobalVertex { position: Some(point) },
                );
                Ok(())
            },
            None => Err(
                BuildError::CannotInfer { entity: Entity::GlobalVertex, field: Field::Position },
            ),
        }
    }

    /// Builds the surface vertex, whose position must be set, and whose
    /// global position must be set or such that it can be inferred.
    pub fn build(self, partials: &mut Partials, objects: &mut Objects) -> (r: SurfaceVertex)
        requires
            old(partials)@.ready(old(objects)@),
            self.wf_in(old(partials)@),
            self.built(old(partials)@, old(objects)@).result.is_ok(),
        ensures
            (Built {
                partials: final(partials)@,
                objects: final(objects)@,
                result: Ok::<SurfaceVertex, BuildError>(r),
            }) == self.built(old(partials)@, old(objects)@),
            final(partials)@.ready(final(objects)@),
            old(objects)@.prefix_of(final(objects)@),
            old(partials)@.within(final(partials)@) && final(partials)@.within(old(partials)@),
            final(partials)@.surface_vertices == old(partials)@.surface_vertices,
    {
        self.try_build(partials, objects).unwrap()
    }

    /// Builds the surface vertex, inferring its global position if need be,
    /// and building its surface and its global form on the way.
    pub fn try_build(self, partials: &mut Partials, objects: &mut Objects) -> (r: Result<
        SurfaceVertex,
        BuildError,
    >)
        requires
            old(partials)@.ready(old(objects)@),
            self.wf_in(old(partials)@),
        ensures
            (Built { partials: final(partials)@, objects: final(objects)@, result: r })
                == self.built(old(partials)@, old(objects)@),
            final(partials)@.ready(final(objects)@),
            old(objects)@.prefix_of(final(objects)@),
            old(partials)@.within(final(partials)@) && final(partials)@.within(old(partials)@),
            final(partials)@.surface_vertices == old(partials)@.surface_vertices,
            r.is_ok() ==> r.unwrap().surface.index < final(objects)@.surfaces.len()
                && r.unwrap().global_form.index < final(objects)@.global_vertices.len(),
    {
        reveal(PartialSurfaceVertex::built);
        match self.infer_global_position(partials) {
            Err(e) => {
                return Err(e);
            },
            Ok(()) => {},
        }
        let position = match self.position {
            Some(position) => position,
            None => {
                return Err(
                    BuildError::Missing { entity: Entity::SurfaceVertex, field: Field::Position },
                );
            },
        };
        let surface = match partials.build_surface(self.surface, objects) {
            Ok(surface) => surface,
            Err(e) => {
                return Err(e);
            },
        };
        let global_form = match partials.build_global_vertex(self.global_form, objects) {
            Ok(global_form) => global_form,
            Err(e) => {
                return Err(e);
            },
        };
        Ok(SurfaceVertex { position, surface, global_form })
    }
}

/// What building the surface vertex that `h` refers to does. If the place
/// remembers a full surface vertex, that one is the result and nothing
/// changes. Else the surface vertex is built from the partial one and put into
/// the store, and the place remembers it.
#[verifier::opaque]
pub open spec fn surface_vertex_built(
    partials: PartialsView,
    objects: ObjectsView,
    h: SurfaceVertexHandle,
) -> Built<SurfaceVertexId> {
    match partials.surface_vertices[h.index as int].full {
        Some(id) => Built { partials, objects, result: Ok(id) },
        None => {
            let b = partials.surface_vertex(h).built(partials, objects);
            match b.result {
                Err(e) => Built { partials: b.partials, objects: b.objects, result: Err(e) },
                Ok(vertex) => {
                    let id = SurfaceVertexId {
                        index: place_of(b.objects.surface_vertices, vertex) as usize,
                    };
                    Built {
                        partials: b.partials.remember_surface_vertex(h, id),
                        objects: b.objects.with_surface_vertex(vertex),
                        result: Ok(id),
                    }
                },
            }
        },
    }
}

/// The arena after the surface position of a partial vertex was inferred,
/// where that is called for and possible. Where the surface form has a
/// position, nothing is inferred. Else the surface form gets the point that
/// was found for it; if none was found, the position cannot be inferred.
pub open spec fn surface_position_inferred(
    partials: PartialsView,
    vertex: PartialVertex,
    found: Option<Point<2>>,
) -> Result<PartialsView, BuildError> {
    let form = partials.surface_vertex(vertex.surface_form);
    if form.position.is_some() {
        Ok(partials)
    } else {
        match found {
            Some(point) => Ok(
                partials.set_surface_vertex(
                    vertex.surface_form,
                    PartialSurfaceVertex {
                        position: Some(point),
                        surface: form.surface,
                        global_form: form.global_form,
                    },
                ),
            ),
            None => Err(
                BuildError::CannotInfer { entity: Entity::SurfaceVertex, field: Field::Position },
            ),
        }
    }
}

/// The point that is found for the surface form of a vertex at the curve
/// position `position` on `path`: none where the path cannot be evaluated;
/// on a straight path the point of the line; on a circle the point that the
/// surface form has in the arena `outcome`, in which the build ended.
pub open spec fn found_on(
    path: crate::geometry::SurfacePath,
    position: Point<1>,
    vertex: PartialVertex,
    outcome: PartialsView,
) -> Option<Point<2>> {
    if path.defined_at(position) {
        Some(path.evaluated(position, outcome.surface_vertex(vertex.surface_form).position))
    } else {
        None
    }
}

impl PartialVertex {
    /// What building this partial vertex does once its curve is built and
    /// the point `found` on the path of the curve is at hand. The surface
    /// position is inferred, if it is not set: the surface form gets the
    /// point. Then the surface form is built, and the vertex has the given
    /// position, on the given curve, with that surface form.
    #[verifier::opaque]
    pub open spec fn finished(
        self,
        position: Point<1>,
        curve: crate::objects::CurveId,
        found: Option<Point<2>>,
        partials: PartialsView,
        objects: ObjectsView,
    ) -> Built<Vertex> {
        match surface_position_inferred(partials, self, found) {
            Err(e) => Built { partials, objects, result: Err(e) },
            Ok(inferred) => {
                let s = surface_vertex_built(inferred, objects, self.surface_form);
                match s.result {
                    Err(e) => Built { partials: s.partials, objects: s.objects, result: Err(e) },
                    Ok(surface_form) => Built {
                        partials: s.partials,
                        objects: s.objects,
                        result: Ok(Vertex { position, curve, surface_form }),
                    },
                }
            },
        }
    }

    /// What building this partial vertex does. Its position must be set. Its
    /// curve is built. The path of that curve is evaluated at the position,
    /// and the build is finished with the point that is found. On a circle
    /// that point is whatever the evaluation gave; it is read from `outcome`,
    /// the arena in which the build ended.
    #[verifier::opaque]
    pub open spec fn built(
        self,
        partials: PartialsView,
        objects: ObjectsView,
        outcome: PartialsView,
    ) -> Built<Vertex> {
        match self.position {
            None => Built {
                partials,
                objects,
                result: Err(
                    BuildError::Missing { entity: Entity::Vertex, field: Field::Position },
                ),
            },
            Some(position) => {
                let c = curve_built(partials, objects, self.curve);
                match c.result {
                    Err(e) => Built { partials: c.partials, objects: c.objects, result: Err(e) },
                    Ok(curve) => self.finished(
                        position,
                        curve,
                        found_on(c.objects.curves[curve.index as int].path, position, self, outcome),
                        c.partials,
                        c.objects,
                    ),
                }
            },
        }
    }

    /// Finishes the build of the vertex with the point that was found on the
    /// path of its curve: infers the surface position from it if need be, and
    /// builds the surface form.
    pub fn finish(
        self,
        position: Point<1>,
        curve: crate::objects::CurveId,
        found: Option<Point<2>>,
        partials: &mut Partials,
        objects: &mut Objects,
    ) -> (r: Result<Vertex, BuildError>)
        requires
            old(partials)@.ready(old(objects)@),
            self.wf_in(old(partials)@),
            curve.index < old(objects)@.curves.len(),
        ensures
            (Built { partials: final(partials)@, objects: final(objects)@, result: r })
                == self.finished(position, curve, found, old(partials)@, old(objects)@),
            final(partials)@.ready(final(objects)@),
            old(objects)@.prefix_of(final(objects)@),
            old(partials)@.within(final(partials)@) && final(partials)@.within(old(partials)@),
            old(partials)@.positions_kept_in(final(partials)@),
            old(partials)@.surface_vertex(self.surface_form).position.is_none() && found.is_some()
                ==> final(partials)@.surface_vertex(self.surface_form).position == found,
            r.is_ok() ==> r.unwrap().position == position && r.unwrap().curve == curve
                && r.unwrap().surface_form.index < final(objects)@.surface_vertices.len(),
    {
        reveal(PartialVertex::finished);
        let form = partials.read_surface_vertex(self.surface_form);
        if form.position.is_none() {
            match found {
                Some(point) => {
                    partials.write_surface_vertex(
                        self.surface_form,
                        PartialSurfaceVertex {
                            position: Some(point),
                            surface: form.surface,
                            global_form: form.global_form,
                        },
                    );
                },
                None => {
                    proof {
                        lemma_same_forms_keep(partials@, partials@);
                    }
                    return Err(
                        BuildError::CannotInfer {
                            entity: Entity::SurfaceVertex,
                            field: Field::Position,
                        },
                    );
                },
            }
        }
        let ghost inferred = partials@;
        proof {
            assert forall|i: int|
                0 <= i < old(partials)@.surface_vertices.len() && (
                #[trigger] old(partials)@.surface_vertices[i]).partial.position.is_some() implies inferred.surface_vertices[i].partial.position
                == old(partials)@.surface_vertices[i].partial.position by {
                assert(i != self.surface_form.index || form.position.is_some());
            }
        }
        let built = partials.build_surface_vertex(self.surface_form, objects);
        proof {
            lemma_same_forms_keep(inferred, partials@);
            lemma_positions_kept(old(partials)@, inferred, partials@);
            assert(partials@.surface_vertices[self.surface_form.index as int].partial
                == inferred.surface_vertices[self.surface_form.index as int].partial);
        }
        match built {
            Ok(surface_form) => Ok(Vertex { position, curve, surface_form }),
            Err(e) => Err(e),
        }
    }

    /// Builds the vertex, building its curve and its surface form on the way,
    /// and inferring the surface position if need be. Where the path of the
    /// curve is a circle, the inferred position is what evaluating the circle
    /// gave; it is the position that the surface form has afterwards.
    pub fn try_build(self, partials: &mut Partials, objects: &mut Objects) -> (r: Result<
        Vertex,
        BuildError,
    >)
        requires
            old(partials)@.ready(old(objects)@),
            self.wf_in(old(partials)@),
        ensures
            (Built { partials: final(partials)@, objects: final(objects)@, result: r })
                == self.built(old(partials)@, old(objects)@, final(partials)@),
            forall|outcome: PartialsView| #[trigger]
                final(partials)@.positions_kept_in(outcome) ==> (Built {
                    partials: final(partials)@,
                    objects: final(objects)@,
                    result: r,
                }) == self.built(old(partials)@, old(objects)@, outcome),
            final(partials)@.ready(final(objects)@),
            old(objects)@.prefix_of(final(objects)@),
            old(partials)@.within(final(partials)@) && final(partials)@.within(old(partials)@),
            old(partials)@.positions_kept_in(final(partials)@),
            r.is_ok() ==> r.unwrap().curve.index < final(objects)@.curves.len()
                && r.unwrap().surface_form.index < final(objects)@.surface_vertices.len(),
    {
        reveal(PartialVertex::built);
        let ghost start_objects = objects@;
        let position = match self.position {
            Some(position) => position,
            None => {
                proof {
                    lemma_same_forms_keep(partials@, partials@);
                }
                return Err(BuildError::Missing { entity: Entity::Vertex, field: Field::Position });
            },
        };
        let curve = match partials.build_curve(self.curve, objects) {
            Ok(curve) => curve,
            Err(e) => {
                proof {
                    lemma_same_forms_keep(old(partials)@, partials@);
                    lemma_same_forms_keep(partials@, partials@);
                }
                return Err(e);
            },
        };
        let ghost middle = partials@;
        let ghost middle_objects = objects@;
        let form = partials.read_surface_vertex(self.surface_form);
        let path = objects.curves[curve.index].path;
        let found = if form.position.is_none() {
            path.point_from_path_coords(&position)
        } else {
            None
        };
        let r = self.finish(position, curve, found, partials, objects);
        proof {
            reveal(PartialVertex::finished);
            lemma_same_forms_keep(old(partials)@, middle);
            lemma_positions_kept(old(partials)@, middle, partials@);
            crate::objects::lemma_prefix_transitive(start_objects, middle_objects, objects@);
            assert forall|outcome: PartialsView| #[trigger]
                partials@.positions_kept_in(outcome) implies (Built {
                partials: partials@,
                objects: objects@,
                result: r,
            }) == self.built(old(partials)@, old(objects)@, outcome) by {
                let at = self.surface_form.index as int;
                if form.position.is_none() && found.is_some() {
                    assert(partials@.surface_vertices[at].partial.position == found);
                    assert(outcome.surface_vertices[at].partial.position == found);
                }
            }
            lemma_same_forms_keep(partials@, partials@);
        }
        r
    }

    /// Builds the vertex, which must be one that can be built: whatever
    /// point is found on the path of its curve, nothing is missing.
    pub fn build(self, partials: &mut Partials, objects: &mut Objects) -> (r: Vertex)
        requires
            old(partials)@.ready(old(objects)@),
            self.wf_in(old(partials)@),
            forall|outcome: PartialsView|
                (#[trigger] self.built(old(partials)@, old(objects)@, outcome)).result.is_ok(),
        ensures
            (Built {
                partials: final(partials)@,
                objects: final(objects)@,
                result: Ok::<Vertex, BuildError>(r),
            }) == self.built(old(partials)@, old(objects)@, final(partials)@),
            forall|outcome: PartialsView| #[trigger]
                final(partials)@.positions_kept_in(outcome) ==> (Built {
                    partials: final(partials)@,
                    objects: final(objects)@,
                    result: Ok::<Vertex, BuildError>(r),
                }) == self.built(old(partials)@, old(objects)@, outcome),
            final(partials)@.ready(final(objects)@),
            old(objects)@.prefix_of(final(objects)@),
            old(partials)@.within(final(partials)@) && final(partials)@.within(old(partials)@),
            old(partials)@.positions_kept_in(final(partials)@),
    {
        let built = self.try_build(partials, objects);
        assert(self.built(old(partials)@, old(objects)@, partials@).result.is_ok());
        built.unwrap()
    }
}

/// What building the vertex that `h` refers to does. If the place remembers a
/// full vertex, that one is the result and nothing changes. Else the vertex
/// is built from the partial one and put into the store, and the place
/// remembers it. `outcome` is the arena in which the build ended.
#[verifier::opaque]
pub open spec fn vertex_built(
    partials: PartialsView,
    objects: ObjectsView,
    h: VertexHandle,
    outcome: PartialsView,
) -> Built<VertexId> {
    match partials.vertices[h.index as int].full {
        Some(id) => Built { partials, objects, result: Ok(id) },
        None => {
            let b = partials.vertex(h).built(partials, objects, outcome);
            match b.result {
                Err(e) => Built { partials: b.partials, objects: b.objects, result: Err(e) },
                Ok(vertex) => {
                    let id = VertexId { index: place_of(b.objects.vertices, vertex) as usize };
                    Built {
                        partials: b.partials.remember_vertex(h, id),
                        objects: b.objects.with_vertex(vertex),
                        result: Ok(id),
                    }
                },
            }
        },
    }
}

impl Partials {
    /// Builds the global vertex that `h` refers to, or returns the one that
    /// was built from it before.
    pub fn build_global_vertex(&mut self, h: GlobalVertexHandle, objects: &mut Objects) -> (r:
        Result<GlobalVertexId, BuildError>)
        requires
            old(self)@.ready(old(objects)@),
            old(self)@.has_global_vertex(h),
        ensures
            (Built { partials: final(self)@, objects: final(objects)@, result: r })
                == global_vertex_built(old(self)@, old(objects)@, h),
            final(self)@.ready(final(objects)@),
            old(objects)@.prefix_of(final(objects)@),
            old(self)@.within(final(self)@) && final(self)@.within(old(self)@),
            final(self)@.surface_vertices == old(self)@.surface_vertices,
            r.is_ok() ==> final(self)@.global_vertices[h.index as int].full == Some(r.unwrap())
                && r.unwrap().index < final(objects)@.global_vertices.len(),
    {
        reveal(global_vertex_built);
        let slot = self.global_vertices[h.index];
        match slot.full {
            Some(id) => Ok(id),
            None => match slot.partial.try_build(objects) {
                Err(e) => Err(e),
                Ok(vertex) => {
                    let id = objects.insert_global_vertex(vertex);
                    self.global_vertices.set(
                        h.index,
                        Slot { partial: slot.partial, full: Some(id) },
                    );
                    Ok(id)
                },
            },
        }
    }

    /// Builds the surface vertex that `h` refers to, or returns the one that
    /// was built from it before.
    pub fn build_surface_vertex(&mut self, h: SurfaceVertexHandle, objects: &mut Objects) -> (r:
        Result<SurfaceVertexId, BuildError>)
        requires
            old(self)@.ready(old(objects)@),
            old(self)@.has_surface_vertex(h),
        ensures
            (Built { partials: final(self)@, objects: final(objects)@, result: r })
                == surface_vertex_built(old(self)@, old(objects)@, h),
            final(self)@.ready(final(objects)@),
            old(objects)@.prefix_of(final(objects)@),
            old(self)@.within(final(self)@) && final(self)@.within(old(self)@),
            old(self)@.same_forms(final(self)@),
            r.is_ok() ==> final(self)@.surface_vertices[h.index as int].full == Some(r.unwrap())
                && r.unwrap().index < final(objects)@.surface_vertices.len(),
    {
        reveal(surface_vertex_built);
        let slot = self.surface_vertices[h.index];
        match slot.full {
            Some(id) => Ok(id),
            None => match slot.partial.try_build(self, objects) {
                Err(e) => Err(e),
                Ok(vertex) => {
                    let id = objects.insert_surface_vertex(vertex);
                    let partial = self.surface_vertices[h.index].partial;
                    self.surface_vertices.set(h.index, Slot { partial, full: Some(id) });
                    Ok(id)
                },
            },
        }
    }

    /// Builds the vertex that `h` refers to, or returns the one that was built
    /// from it before.
    pub fn build_vertex(&mut self, h: VertexHandle, objects: &mut Objects) -> (r: Result<
        VertexId,
        BuildError,
    >)
        requires
            old(self)@.ready(old(objects)@),
            old(self)@.has_vertex(h),
        ensures
            (Built { partials: final(self)@, objects: final(objects)@, result: r }) == vertex_built(
                old(self)@,
                old(objects)@,
                h,
                final(self)@,
            ),
            forall|outcome: PartialsView| #[trigger]
                final(self)@.positions_kept_in(outcome) ==> (Built {
                    partials: final(self)@,
                    objects: final(objects)@,
                    result: r,
                }) == vertex_built(old(self)@, old(objects)@, h, outcome),
            final(self)@.ready(final(objects)@),
            old(objects)@.prefix_of(final(objects)@),
            old(self)@.within(final(self)@) && final(self)@.within(old(self)@),
            old(self)@.positions_kept_in(final(self)@),
            r.is_ok() ==> final(self)@.vertices[h.index as int].full == Some(r.unwrap())
                && r.unwrap().index < final(objects)@.vertices.len(),
    {
        reveal(vertex_built);
        let slot = self.vertices[h.index];
        match slot.full {
            Some(id) => {
                proof {
                    lemma_same_forms_keep(self@, self@);
                }
                Ok(id)
            },
            None => {
                let built = slot.partial.try_build(self, objects);
                let ghost middle = self@;
                let ghost middle_objects = objects@;
                match built {
                    Err(e) => Err(e),
                    Ok(vertex) => {
                        let id = objects.insert_vertex(vertex);
                        let partial = self.vertices[h.index].partial;
                        self.vertices.set(h.index, Slot { partial, full: Some(id) });
                        proof {
                            crate::objects::lemma_prefix_transitive(
                                old(objects)@,
                                middle_objects,
                                objects@,
                            );
                            assert(self@.surface_vertices == middle.surface_vertices);
                            assert forall|outcome: PartialsView| #[trigger]
                                self@.positions_kept_in(outcome) implies (Built {
                                partials: self@,
                                objects: objects@,
                                result: Ok::<VertexId, BuildError>(id),
                            }) == vertex_built(old(self)@, old(objects)@, h, outcome) by {
                                assert(middle.positions_kept_in(outcome));
                            }
                            lemma_same_forms_keep(self@, self@);
                        }
                        Ok(id)
                    },
                }
            },
        }
    }
}

/// The two points are the same point, or points that `fj_math` regards as
/// equal.
pub open spec fn alike<const D: usize>(a: Point<D>, b: Point<D>) -> bool {
    a == b || crate::math::all_same(a@, b@)
}

/// The path can be evaluated at the curve position, and the surface at the
/// point of the path there; on a circle that point is the one that was found.
pub open spec fn can_infer_along(
    path: crate::geometry::SurfacePath,
    position: Point<1>,
    geometry: crate::geometry::SurfaceGeometry,
    found: Option<Point<2>>,
) -> bool {
    path.defined_at(position) && geometry.defined_at(path.evaluated(position, found))
}

/// A vertex of which only the position on its curve is set, and of which
/// nothing was built yet, can be built, if its curve has a path, the surfaces
/// have their geometry, and the path and the surface can be evaluated; and so
/// can every path that `fj_math` regards as equal to the path, since the curve
/// may be stored with one of them. The surface vertex that is built with it
/// lies at the point of the stored path at the position, and the global
/// vertex at the point of the surface there; or, where the store held objects
/// of the same content before, at points that `fj_math` regards as equal to
/// these. On a circle the point of the path is the one that evaluating the
/// circle gave, which the surface form has in `outcome`, the arena in which
/// the build ended.
pub proof fn lemma_vertex_built_from_curve_position(
    partials: PartialsView,
    objects: ObjectsView,
    h: VertexHandle,
    outcome: PartialsView,
)
    requires
        partials.ready(objects),
        objects.has_room(),
        partials.has_vertex(h),
        partials.vertices[h.index as int].full.is_none(),
        partials.curves[partials.vertex(h).curve.index as int].full.is_none(),
        partials.surface_vertices[partials.vertex(h).surface_form.index as int].full.is_none(),
        partials.global_vertices[partials.surface_vertex(
            partials.vertex(h).surface_form,
        ).global_form.index as int].full.is_none(),
        partials.vertex(h).position.is_some(),
        partials.curve(partials.vertex(h).curve).path.is_some(),
        partials.surface(partials.curve(partials.vertex(h).curve).surface).geometry.is_some(),
        partials.surface_vertex(partials.vertex(h).surface_form).position.is_none(),
        partials.global_vertex(
            partials.surface_vertex(partials.vertex(h).surface_form).global_form,
        ).position.is_none(),
        partials.surface(
            partials.surface_vertex(partials.vertex(h).surface_form).surface,
        ).geometry.is_some(),
        can_infer_along(
            partials.curve(partials.vertex(h).curve).path.unwrap(),
            partials.vertex(h).position.unwrap(),
            partials.surface(
                partials.surface_vertex(partials.vertex(h).surface_form).surface,
            ).geometry.unwrap(),
            outcome.surface_vertex(partials.vertex(h).surface_form).position,
        ),
        forall|stored: crate::geometry::SurfacePath| #[trigger]
            stored.matches(partials.curve(partials.vertex(h).curve).path.unwrap())
                ==> can_infer_along(
                stored,
                partials.vertex(h).position.unwrap(),
                partials.surface(
                    partials.surface_vertex(partials.vertex(h).surface_form).surface,
                ).geometry.unwrap(),
                outcome.surface_vertex(partials.vertex(h).surface_form).position,
            ),
    ensures
        ({
            let position = partials.vertex(h).position.unwrap();
            let path = partials.curve(partials.vertex(h).curve).path.unwrap();
            let geometry = partials.surface(
                partials.surface_vertex(partials.vertex(h).surface_form).surface,
            ).geometry.unwrap();
            let b = vertex_built(partials, objects, h, outcome);
            &&& b.result.is_ok()
            &&& b.result.unwrap().index < b.objects.vertices.len()
            &&& {
                let vertex = b.objects.vertices[b.result.unwrap().index as int];
                &&& alike(vertex.position, position)
                &&& vertex.curve.index < b.objects.curves.len()
                &&& vertex.surface_form.index < b.objects.surface_vertices.len()
                &&& {
                    let stored = b.objects.curves[vertex.curve.index as int].path;
                    let form = b.objects.surface_vertices[vertex.surface_form.index as int];
                    let point = stored.evaluated(
                        position,
                        outcome.surface_vertex(partials.vertex(h).surface_form).position,
                    );
                    &&& stored == path || stored.matches(path)
                    &&& alike(form.position, point)
                    &&& form.global_form.index < b.objects.global_vertices.len()
                    &&& alike(
                        b.objects.global_vertices[form.global_form.index as int].position,
                        geometry.point_at(point),
                    )
                    &&& b.partials.surface_vertex(partials.vertex(h).surface_form).position
                        == Some(point)
                }
            }
        }),
{
    reveal(surface_built);
    reveal(curve_built);
    reveal(PartialCurve::built);
    reveal(global_vertex_built);
    reveal(surface_vertex_built);
    reveal(PartialSurfaceVertex::built);
    reveal(vertex_built);
    reveal(PartialVertex::built);
    reveal(PartialVertex::finished);
    let v = partials.vertex(h);
    let position = v.position.unwrap();
    let path = partials.curve(v.curve).path.unwrap();
    assert(partials.vertices[h.index as int].partial.wf_in(partials));
    assert(partials.curves[v.curve.index as int].partial.wf_in(partials));
    assert(partials.surface_vertices[v.surface_form.index as int].partial.wf_in(partials));
    let form = partials.surface_vertex(v.surface_form);
    let geometry = partials.surface(form.surface).geometry.unwrap();
    // The curve, with its surface.
    let curve_surface = partials.curve(v.curve).surface;
    let s0 = surface_built(partials, objects, curve_surface);
    if partials.surfaces[curve_surface.index as int].full.is_none() {
        crate::objects::lemma_stored(
            objects.surfaces,
            partials.surface(curve_surface).built().unwrap(),
        );
    }
    assert(s0.result.is_ok());
    let item = crate::objects::Curve { path, surface: s0.result.unwrap() };
    crate::objects::lemma_stored(s0.objects.curves, item);
    let c = curve_built(partials, objects, v.curve);
    assert(c.result.is_ok());
    let curve = c.result.unwrap();
    let stored = c.objects.curves[curve.index as int].path;
    assert(stored == path || stored.matches(path));
    let seen = outcome.surface_vertex(v.surface_form).position;
    assert(can_infer_along(stored, position, geometry, seen));
    assert(c.partials.surface_vertex(v.surface_form) == form);
    assert(c.partials.surface(form.surface).geometry == Some(geometry));
    // The surface position.
    let point = stored.evaluated(position, seen);
    let found = found_on(stored, position, v, outcome);
    assert(found == Some(point));
    let inferred = surface_position_inferred(c.partials, v, found).unwrap();
    let with_position = PartialSurfaceVertex {
        position: Some(point),
        surface: form.surface,
        global_form: form.global_form,
    };
    assert(inferred.surface_vertex(v.surface_form) == with_position);
    assert(inferred.surface_vertices[v.surface_form.index as int].full.is_none());
    assert(inferred.surface(form.surface).geometry == Some(geometry));
    assert(inferred.global_vertices[form.global_form.index as int].full.is_none());
    assert(inferred.global_vertex(form.global_form).position.is_none());
    // The global position, and the surface vertex.
    let backfilled = global_position_inferred(inferred, with_position).unwrap();
    let space_point = geometry.point_at(point);
    assert(backfilled.global_vertex(form.global_form).position == Some(space_point));
    let s1 = surface_built(backfilled, c.objects, form.surface);
    if backfilled.surfaces[form.surface.index as int].full.is_none() {
        crate::objects::lemma_stored(
            c.objects.surfaces,
            backfilled.surface(form.surface).built().unwrap(),
        );
    }
    assert(s1.result.is_ok());
    assert(s1.partials.global_vertices == backfilled.global_vertices);
    assert(s1.objects.curves == c.objects.curves);
    let global = GlobalVertex { position: space_point };
    crate::objects::lemma_stored(s1.objects.global_vertices, global);
    let g = global_vertex_built(s1.partials, s1.objects, form.global_form);
    assert(g.result.is_ok());
    let gid = g.result.unwrap();
    assert(alike(g.objects.global_vertices[gid.index as int].position, space_point));
    let b_form = with_position.built(inferred, c.objects);
    assert(b_form.result.is_ok());
    let form_item = b_form.result.unwrap();
    assert(form_item.position == point);
    assert(form_item.global_form == gid);
    crate::objects::lemma_stored(b_form.objects.surface_vertices, form_item);
    let sv = surface_vertex_built(inferred, c.objects, v.surface_form);
    assert(sv.result.is_ok());
    let svid = sv.result.unwrap();
    assert(alike(sv.objects.surface_vertices[svid.index as int].position, point));
    assert(sv.objects.surface_vertices[svid.index as int].global_form == gid);
    assert(sv.objects.global_vertices == g.objects.global_vertices);
    assert(sv.objects.curves == c.objects.curves);
    assert(sv.partials.surface_vertex(v.surface_form).position == Some(point));
    // The vertex.
    let b_vertex = v.built(partials, objects, outcome);
    assert(b_vertex.result.is_ok());
    let vertex_item = b_vertex.result.unwrap();
    assert(vertex_item.position == position);
    assert(vertex_item.curve == curve);
    assert(vertex_item.surface_form == svid);
    crate::objects::lemma_stored(b_vertex.objects.vertices, vertex_item);
}

/// A global vertex that was built is not built again: building it once more
/// gives the same global vertex and changes nothing.
pub proof fn lemma_global_vertex_built_once(
    partials: PartialsView,
    objects: ObjectsView,
    h: GlobalVertexHandle,
)
    requires
        partials.has_global_vertex(h),
        global_vertex_built(partials, objects, h).result.is_ok(),
    ensures
        ({
            let b = global_vertex_built(partials, objects, h);
            global_vertex_built(b.partials, b.objects, h) == b
        }),
{
    reveal(global_vertex_built);
}

/// A surface vertex that was built is not built again: building it once more
/// gives the same surface vertex and changes nothing.
pub proof fn lemma_surface_vertex_built_once(
    partials: PartialsView,
    objects: ObjectsView,
    h: SurfaceVertexHandle,
)
    requires
        partials.wf(),
        partials.has_surface_vertex(h),
        surface_vertex_built(partials, objects, h).result.is_ok(),
    ensures
        ({
            let b = surface_vertex_built(partials, objects, h);
            surface_vertex_built(b.partials, b.objects, h) == b
        }),
{
    reveal(surface_vertex_built);
    reveal(PartialSurfaceVertex::built);
    if partials.surface_vertices[h.index as int].full.is_none() {
        let partial = partials.surface_vertex(h);
        assert(partials.surface_vertices[h.index as int].partial.wf_in(partials));
        let inferred = global_position_inferred(partials, partial).unwrap();
        assert(inferred.wf());
        reveal(surface_built);
        reveal(global_vertex_built);
    }
}

/// A vertex that was built is not built again: building it once more gives
/// the same vertex and changes nothing.
pub proof fn lemma_vertex_built_once(
    partials: PartialsView,
    objects: ObjectsView,
    h: VertexHandle,
    outcome: PartialsView,
    later: PartialsView,
)
    requires
        partials.wf(),
        partials.has_vertex(h),
        vertex_built(partials, objects, h, outcome).result.is_ok(),
    ensures
        ({
            let b = vertex_built(partials, objects, h, outcome);
            vertex_built(b.partials, b.objects, h, later) == b
        }),
{
    reveal(PartialVertex::finished);
    reveal(vertex_built);
    reveal(PartialVertex::built);
    reveal(curve_built);
    reveal(PartialCurve::built);
    reveal(surface_built);
    reveal(surface_vertex_built);
    reveal(PartialSurfaceVertex::built);
    reveal(global_vertex_built);
    if partials.vertices[h.index as int].full.is_none() {
        assert(partials.vertices[h.index as int].partial.wf_in(partials));
    }
}

} // verus!
