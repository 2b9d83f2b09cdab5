//! Partial objects: objects under construction.
//!
//! Partial objects live in an arena, [`Partials`], and refer to each other by
//! handles into it. Two handles denote the same object exactly if they are
//! equal, so an object that several others refer to is shared, not copied.
//! Each place of the arena also remembers the full object that was last built
//! from it; writing to the place forgets that object.

pub mod cache;
pub mod curve;
pub mod cycle;
pub mod edge;
pub mod face;
pub mod sketch;
pub mod surface;
pub mod vertex;

use vstd::prelude::*;
use crate::objects::{
    CurveId, GlobalVertexId, HalfEdgeId, ObjectsView, SurfaceId, SurfaceVertexId, VertexId,
};
use crate::partial::curve::PartialCurve;
use crate::partial::edge::PartialHalfEdge;
use crate::partial::surface::PartialSurface;
use crate::partial::vertex::{PartialGlobalVertex, PartialSurfaceVertex, PartialVertex};

verus! {

/// Refers to a partial surface.
#[derive(Clone, Copy, Debug, PartialEq, Eq, Structural)]
pub struct SurfaceHandle {
    pub index: usize,
}

/// Refers to a partial curve.
#[derive(Clone, Copy, Debug, PartialEq, Eq, Structural)]
pub struct CurveHandle {
    pub index: usize,
}

/// Refers to a partial global vertex.
#[derive(Clone, Copy, Debug, PartialEq, Eq, Structural)]
pub struct GlobalVertexHandle {
    pub index: usize,
}

/// Refers to a partial surface vertex.
#[derive(Clone, Copy, Debug, PartialEq, Eq, Structural)]
pub struct SurfaceVertexHandle {
    pub index: usize,
}

/// Refers to a partial vertex.
#[derive(Clone, Copy, Debug, PartialEq, Eq, Structural)]
pub struct VertexHandle {
    pub index: usize,
}

/// Refers to a partial half-edge.
#[derive(Clone, Copy, Debug, PartialEq, Eq, Structural)]
pub struct HalfEdgeHandle {
    pub index: usize,
}

/// One place of the arena: a partial object, and the full object that was
/// built from it, if it was built since it was last written.
#[derive(Clone, Copy, Debug)]
pub struct Slot<P, F> {
    pub partial: P,
    pub full: Option<F>,
}

/// The arena of partial objects.
pub struct Partials {
    pub surfaces: Vec<Slot<PartialSurface, SurfaceId>>,
    pub curves: Vec<Slot<PartialCurve, CurveId>>,
    pub global_vertices: Vec<Slot<PartialGlobalVertex, GlobalVertexId>>,
    pub surface_vertices: Vec<Slot<PartialSurfaceVertex, SurfaceVertexId>>,
    pub vertices: Vec<Slot<PartialVertex, VertexId>>,
    pub half_edges: Vec<Slot<PartialHalfEdge, HalfEdgeId>>,
}

/// The contents of an arena.
pub struct PartialsView {
    pub surfaces: Seq<Slot<PartialSurface, SurfaceId>>,
    pub curves: Seq<Slot<PartialCurve, CurveId>>,
    pub global_vertices: Seq<Slot<PartialGlobalVertex, GlobalVertexId>>,
    pub surface_vertices: Seq<Slot<PartialSurfaceVertex, SurfaceVertexId>>,
    pub vertices: Seq<Slot<PartialVertex, VertexId>>,
    pub half_edges: Seq<Slot<PartialHalfEdge, HalfEdgeId>>,
}

/// The kinds of objects that are built from partial objects.
#[derive(Clone, Copy, Debug, PartialEq, Eq, Structural)]
pub enum Entity {
    Surface,
    Curve,
    GlobalVertex,
    SurfaceVertex,
    Vertex,
}

/// The attributes that an object cannot be built without.
#[derive(Clone, Copy, Debug, PartialEq, Eq, Structural)]
pub enum Field {
    Geometry,
    Path,
    Position,
}

/// Why an object could not be built.
#[derive(Clone, Copy, Debug, PartialEq, Eq, Structural)]
pub enum BuildError {
    /// The attribute of the partial object is not set, and cannot be inferred.
    Missing { entity: Entity, field: Field },
    /// The attribute is not set, and the geometry from which it is inferred
    /// cannot be evaluated.
    CannotInfer { entity: Entity, field: Field },
}

/// The arena, the store and the result after a build.
pub struct Built<T> {
    pub partials: PartialsView,
    pub objects: ObjectsView,
    pub result: Result<T, BuildError>,
}

/// The result of a build, with what was built replaced by its contents.
pub open spec fn viewed<T: View>(result: Result<T, BuildError>) -> Result<T::V, BuildError> {
    match result {
        Ok(built) => Ok(built@),
        Err(e) => Err(e),
    }
}

/// A place that holds `partial` and no full object.
pub open spec fn fresh<P, F>(partial: P) -> Slot<P, F> {
    Slot { partial, full: None }
}

impl PartialsView {
    pub open spec fn has_surface(&self, h: SurfaceHandle) -> bool {
        h.index < self.surfaces.len()
    }

    pub open spec fn has_curve(&self, h: CurveHandle) -> bool {
        h.index < self.curves.len()
    }

    pub open spec fn has_global_vertex(&self, h: GlobalVertexHandle) -> bool {
        h.index < self.global_vertices.len()
    }

    pub open spec fn has_surface_vertex(&self, h: SurfaceVertexHandle) -> bool {
        h.index < self.surface_vertices.len()
    }

    pub open spec fn has_vertex(&self, h: VertexHandle) -> bool {
        h.index < self.vertices.len()
    }

    pub open spec fn has_half_edge(&self, h: HalfEdgeHandle) -> bool {
        h.index < self.half_edges.len()
    }

    pub open spec fn surface(&self, h: SurfaceHandle) -> PartialSurface {
        self.surfaces[h.index as int].partial
    }

    pub open spec fn curve(&self, h: CurveHandle) -> PartialCurve {
        self.curves[h.index as int].partial
    }

    pub open spec fn global_vertex(&self, h: GlobalVertexHandle) -> PartialGlobalVertex {
        self.global_vertices[h.index as int].partial
    }

    pub open spec fn surface_vertex(&self, h: SurfaceVertexHandle) -> PartialSurfaceVertex {
        self.surface_vertices[h.index as int].partial
    }

    pub open spec fn vertex(&self, h: VertexHandle) -> PartialVertex {
        self.vertices[h.index as int].partial
    }

    pub open spec fn half_edge(&self, h: HalfEdgeHandle) -> PartialHalfEdge {
        self.half_edges[h.index as int].partial
    }

    /// Every handle that a partial object holds refers to a place of the
    /// arena.
    pub open spec fn wf(&self) -> bool {
        &&& forall|i: int|
            0 <= i < self.curves.len() ==> (#[trigger] self.curves[i]).partial.wf_in(*self)
        &&& forall|i: int|
            0 <= i < self.surface_vertices.len() ==> (#[trigger] self.surface_vertices[i]).partial.wf_in(
                *self,
            )
        &&& forall|i: int|
            0 <= i < self.vertices.len() ==> (#[trigger] self.vertices[i]).partial.wf_in(*self)
        &&& forall|i: int|
            0 <= i < self.half_edges.len() ==> (#[trigger] self.half_edges[i]).partial.wf_in(*self)
    }

    /// The arena `later` holds, at the same places, all that this one holds.
    pub open spec fn prefix_of(&self, later: PartialsView) -> bool {
        &&& self.within(later)
        &&& forall|i: int| 0 <= i < self.surfaces.len() ==> #[trigger] later.surfaces[i] == self.surfaces[i]
        &&& forall|i: int| 0 <= i < self.curves.len() ==> #[trigger] later.curves[i] == self.curves[i]
        &&& forall|i: int|
            0 <= i < self.global_vertices.len() ==> #[trigger] later.global_vertices[i]
                == self.global_vertices[i]
        &&& forall|i: int|
            0 <= i < self.surface_vertices.len() ==> #[trigger] later.surface_vertices[i]
                == self.surface_vertices[i]
        &&& forall|i: int| 0 <= i < self.vertices.len() ==> #[trigger] later.vertices[i] == self.vertices[i]
        &&& forall|i: int|
            0 <= i < self.half_edges.len() ==> #[trigger] later.half_edges[i] == self.half_edges[i]
    }

    /// The arena `later` has a place for every place of this one.
    pub open spec fn within(&self, later: PartialsView) -> bool {
        &&& self.surfaces.len() <= later.surfaces.len()
        &&& self.curves.len() <= later.curves.len()
        &&& self.global_vertices.len() <= later.global_vertices.len()
        &&& self.surface_vertices.len() <= later.surface_vertices.len()
        &&& self.vertices.len() <= later.vertices.len()
        &&& self.half_edges.len() <= later.half_edges.len()
    }

    /// Every full object that the arena remembers is in the store.
    pub open spec fn built_within(&self, objects: ObjectsView) -> bool {
        &&& forall|i: int|
            0 <= i < self.surfaces.len() && (#[trigger] self.surfaces[i]).full.is_some()
                ==> self.surfaces[i].full.unwrap().index < objects.surfaces.len()
        &&& forall|i: int|
            0 <= i < self.curves.len() && (#[trigger] self.curves[i]).full.is_some()
                ==> self.curves[i].full.unwrap().index < objects.curves.len()
        &&& forall|i: int|
            0 <= i < self.global_vertices.len() && (#[trigger] self.global_vertices[i]).full.is_some()
                ==> self.global_vertices[i].full.unwrap().index < objects.global_vertices.len()
        &&& forall|i: int|
            0 <= i < self.surface_vertices.len() && (
            #[trigger] self.surface_vertices[i]).full.is_some()
                ==> self.surface_vertices[i].full.unwrap().index < objects.surface_vertices.len()
        &&& forall|i: int|
            0 <= i < self.vertices.len() && (#[trigger] self.vertices[i]).full.is_some()
                ==> self.vertices[i].full.unwrap().index < objects.vertices.len()
        &&& forall|i: int|
            0 <= i < self.half_edges.len() && (#[trigger] self.half_edges[i]).full.is_some()
                ==> self.half_edges[i].full.unwrap().index < objects.half_edges.len()
    }

    /// Whatever store the arena `earlier` fits, this arena fits too: it
    /// remembers no full object that `earlier` does not remember.
    pub open spec fn keeps_built(&self, earlier: PartialsView) -> bool {
        forall|objects: ObjectsView|
            earlier.built_within(objects) ==> #[trigger] self.built_within(objects)
    }

    /// Every surface position that this arena knows, the arena `later` knows
    /// too, at the same place.
    pub open spec fn positions_kept_in(&self, later: PartialsView) -> bool {
        &&& self.surface_vertices.len() == later.surface_vertices.len()
        &&& forall|i: int|
            0 <= i < self.surface_vertices.len() && (
            #[trigger] self.surface_vertices[i]).partial.position.is_some()
                ==> later.surface_vertices[i].partial.position
                == self.surface_vertices[i].partial.position
    }

    /// The arena `later` holds the same partial surface vertices.
    pub open spec fn same_forms(&self, later: PartialsView) -> bool {
        &&& self.surface_vertices.len() == later.surface_vertices.len()
        &&& forall|i: int|
            0 <= i < self.surface_vertices.len() ==> (#[trigger] later.surface_vertices[i]).partial
                == self.surface_vertices[i].partial
    }

    /// The arena and the store fit together: both are well-formed, and every
    /// full object that the arena remembers is in the store.
    pub open spec fn ready(&self, objects: ObjectsView) -> bool {
        self.wf() && objects.wf() && self.built_within(objects)
    }

    pub open spec fn remember_surface(self, h: SurfaceHandle, id: SurfaceId) -> PartialsView {
        PartialsView {
            surfaces: self.surfaces.update(
                h.index as int,
                Slot { partial: self.surface(h), full: Some(id) },
            ),
            ..self
        }
    }

    pub open spec fn remember_curve(self, h: CurveHandle, id: CurveId) -> PartialsView {
        PartialsView {
            curves: self.curves.update(
                h.index as int,
                Slot { partial: self.curve(h), full: Some(id) },
            ),
            ..self
        }
    }

    pub open spec fn remember_global_vertex(
        self,
        h: GlobalVertexHandle,
        id: GlobalVertexId,
    ) -> PartialsView {
        PartialsView {
            global_vertices: self.global_vertices.update(
                h.index as int,
                Slot { partial: self.global_vertex(h), full: Some(id) },
            ),
            ..self
        }
    }

    pub open spec fn remember_surface_vertex(
        self,
        h: SurfaceVertexHandle,
        id: SurfaceVertexId,
    ) -> PartialsView {
        PartialsView {
            surface_vertices: self.surface_vertices.update(
                h.index as int,
                Slot { partial: self.surface_vertex(h), full: Some(id) },
            ),
            ..self
        }
    }

    pub open spec fn remember_vertex(self, h: VertexHandle, id: VertexId) -> PartialsView {
        PartialsView {
            vertices: self.vertices.update(
                h.index as int,
                Slot { partial: self.vertex(h), full: Some(id) },
            ),
            ..self
        }
    }

    pub open spec fn remember_half_edge(self, h: HalfEdgeHandle, id: HalfEdgeId) -> PartialsView {
        PartialsView {
            half_edges: self.half_edges.update(
                h.index as int,
                Slot { partial: self.half_edge(h), full: Some(id) },
            ),
            ..self
        }
    }

    pub open spec fn with_surface(self, partial: PartialSurface) -> PartialsView {
        PartialsView { surfaces: self.surfaces.push(fresh(partial)), ..self }
    }

    pub open spec fn with_curve(self, partial: PartialCurve) -> PartialsView {
        PartialsView { curves: self.curves.push(fresh(partial)), ..self }
    }

    pub open spec fn with_global_vertex(self, partial: PartialGlobalVertex) -> PartialsView {
        PartialsView { global_vertices: self.global_vertices.push(fresh(partial)), ..self }
    }

    pub open spec fn with_surface_vertex(self, partial: PartialSurfaceVertex) -> PartialsView {
        PartialsView { surface_vertices: self.surface_vertices.push(fresh(partial)), ..self }
    }

    pub open spec fn with_vertex(self, partial: PartialVertex) -> PartialsView {
        PartialsView { vertices: self.vertices.push(fresh(partial)), ..self }
    }

    pub open spec fn with_half_edge(self, partial: PartialHalfEdge) -> PartialsView {
        PartialsView { half_edges: self.half_edges.push(fresh(partial)), ..self }
    }

    pub open spec fn set_surface(self, h: SurfaceHandle, partial: PartialSurface) -> PartialsView {
        PartialsView { surfaces: self.surfaces.update(h.index as int, fresh(partial)), ..self }
    }

    pub open spec fn set_curve(self, h: CurveHandle, partial: PartialCurve) -> PartialsView {
        PartialsView { curves: self.curves.update(h.index as int, fresh(partial)), ..self }
    }

    pub open spec fn set_global_vertex(
        self,
        h: GlobalVertexHandle,
        partial: PartialGlobalVertex,
    ) -> PartialsView {
        PartialsView {
            global_vertices: self.global_vertices.update(h.index as int, fresh(partial)),
            ..self
        }
    }

    pub open spec fn set_surface_vertex(
        self,
        h: SurfaceVertexHandle,
        partial: PartialSurfaceVertex,
    ) -> PartialsView {
        PartialsView {
            surface_vertices: self.surface_vertices.update(h.index as int, fresh(partial)),
            ..self
        }
    }

    pub open spec fn set_vertex(self, h: VertexHandle, partial: PartialVertex) -> PartialsView {
        PartialsView { vertices: self.vertices.update(h.index as int, fresh(partial)), ..self }
    }

    pub open spec fn set_half_edge(
        self,
        h: HalfEdgeHandle,
        partial: PartialHalfEdge,
    ) -> PartialsView {
        PartialsView { half_edges: self.half_edges.update(h.index as int, fresh(partial)), ..self }
    }
}

impl View for Partials {
    type V = PartialsView;

    open spec fn view(&self) -> PartialsView {
        PartialsView {
            surfaces: self.surfaces@,
            curves: self.curves@,
            global_vertices: self.global_vertices@,
            surface_vertices: self.surface_vertices@,
            vertices: self.vertices@,
            half_edges: self.half_edges@,
        }
    }
}

impl Partials {
    /// An arena without partial objects.
    pub fn new() -> (r: Partials)
        ensures
            r@.wf(),
            r@.surfaces.len() == 0,
            r@.curves.len() == 0,
            r@.global_vertices.len() == 0,
            r@.surface_vertices.len() == 0,
            r@.vertices.len() == 0,
            r@.half_edges.len() == 0,
    {
        Partials {
            surfaces: Vec::new(),
            curves: Vec::new(),
            global_vertices: Vec::new(),
            surface_vertices: Vec::new(),
            vertices: Vec::new(),
            half_edges: Vec::new(),
        }
    }

    /// Whether every handle that a partial object holds refers to a place of
    /// the arena.
    pub fn is_well_formed(&self) -> (r: bool)
        ensures
            r == self@.wf(),
    {
        let mut i: usize = 0;
        while i < self.curves.len()
            invariant
                0 <= i <= self.curves@.len(),
                forall|k: int| 0 <= k < i ==> (#[trigger] self@.curves[k]).partial.wf_in(self@),
            decreases self.curves@.len() - i,
        {
            if self.curves[i].partial.surface.index >= self.surfaces.len() {
                assert(!self@.curves[i as int].partial.wf_in(self@));
                return false;
            }
            i = i + 1;
        }
        let mut i: usize = 0;
        while i < self.surface_vertices.len()
            invariant
                0 <= i <= self.surface_vertices@.len(),
                forall|k: int|
                    0 <= k < i ==> (#[trigger] self@.surface_vertices[k]).partial.wf_in(self@),
            decreases self.surface_vertices@.len() - i,
        {
            let vertex = self.surface_vertices[i].partial;
            if vertex.surface.index >= self.surfaces.len() || vertex.global_form.index
                >= self.global_vertices.len() {
                assert(!self@.surface_vertices[i as int].partial.wf_in(self@));
                return false;
            }
            i = i + 1;
        }
        let mut i: usize = 0;
        while i < self.vertices.len()
            invariant
                0 <= i <= self.vertices@.len(),
                forall|k: int| 0 <= k < i ==> (#[trigger] self@.vertices[k]).partial.wf_in(self@),
            decreases self.vertices@.len() - i,
        {
            let vertex = self.vertices[i].partial;
            if vertex.curve.index >= self.curves.len() || vertex.surface_form.index
                >= self.surface_vertices.len() {
                assert(!self@.vertices[i as int].partial.wf_in(self@));
                return false;
            }
            i = i + 1;
        }
        let mut i: usize = 0;
        while i < self.half_edges.len()
            invariant
                0 <= i <= self.half_edges@.len(),
                forall|k: int|
                    0 <= k < i ==> (#[trigger] self@.half_edges[k]).partial.wf_in(self@),
            decreases self.half_edges@.len() - i,
        {
            let edge = self.half_edges[i].partial;
            if edge.vertices[0].index >= self.vertices.len() || edge.vertices[1].index
                >= self.vertices.len() || edge.global_form[0].index >= self.global_vertices.len()
                || edge.global_form[1].index >= self.global_vertices.len() {
                assert(!self@.half_edges[i as int].partial.wf_in(self@));
                return false;
            }
            i = i + 1;
        }
        true
    }

    /// Whether every full object that the arena remembers is in the store.
    pub fn is_built_within(&self, objects: &crate::objects::Objects) -> (r: bool)
        ensures
            r == self@.built_within(objects@),
    {
        let mut i: usize = 0;
        while i < self.surfaces.len()
            invariant
                0 <= i <= self.surfaces@.len(),
                forall|k: int|
                    0 <= k < i && (#[trigger] self@.surfaces[k]).full.is_some()
                        ==> self@.surfaces[k].full.unwrap().index < objects@.surfaces.len(),
            decreases self.surfaces@.len() - i,
        {
            match self.surfaces[i].full {
                Some(id) => {
                    if id.index >= objects.surfaces.len() {
                        return false;
                    }
                },
                None => {},
            }
            i = i + 1;
        }
        let mut i: usize = 0;
        while i < self.curves.len()
            invariant
                0 <= i <= self.curves@.len(),
                forall|k: int|
                    0 <= k < i && (#[trigger] self@.curves[k]).full.is_some()
                        ==> self@.curves[k].full.unwrap().index < objects@.curves.len(),
            decreases self.curves@.len() - i,
        {
            match self.curves[i].full {
                Some(id) => {
                    if id.index >= objects.curves.len() {
                        return false;
                    }
                },
                None => {},
            }
            i = i + 1;
        }
        let mut i: usize = 0;
        while i < self.global_vertices.len()
            invariant
                0 <= i <= self.global_vertices@.len(),
                forall|k: int|
                    0 <= k < i && (#[trigger] self@.global_vertices[k]).full.is_some()
                        ==> self@.global_vertices[k].full.unwrap().index
                        < objects@.global_vertices.len(),
            decreases self.global_vertices@.len() - i,
        {
            match self.global_vertices[i].full {
                Some(id) => {
                    if id.index >= objects.global_vertices.len() {
                        return false;
                    }
                },
                None => {},
            }
            i = i + 1;
        }
        let mut i: usize = 0;
        while i < self.surface_vertices.len()
            invariant
                0 <= i <= self.surface_vertices@.len(),
                forall|k: int|
                    0 <= k < i && (#[trigger] self@.surface_vertices[k]).full.is_some()
                        ==> self@.surface_vertices[k].full.unwrap().index
                        < objects@.surface_vertices.len(),
            decreases self.surface_vertices@.len() - i,
        {
            match self.surface_vertices[i].full {
                Some(id) => {
                    if id.index >= objects.surface_vertices.len() {
                        return false;
                    }
                },
                None => {},
            }
            i = i + 1;
        }
        let mut i: usize = 0;
        while i < self.vertices.len()
            invariant
                0 <= i <= self.vertices@.len(),
                forall|k: int|
                    0 <= k < i && (#[trigger] self@.vertices[k]).full.is_some()
                        ==> self@.vertices[k].full.unwrap().index < objects@.vertices.len(),
            decreases self.vertices@.len() - i,
        {
            match self.vertices[i].full {
                Some(id) => {
                    if id.index >= objects.vertices.len() {
                        return false;
                    }
                },
                None => {},
            }
            i = i + 1;
        }
        let mut i: usize = 0;
        while i < self.half_edges.len()
            invariant
                0 <= i <= self.half_edges@.len(),
                forall|k: int|
                    0 <= k < i && (#[trigger] self@.half_edges[k]).full.is_some()
                        ==> self@.half_edges[k].full.unwrap().index < objects@.half_edges.len(),
            decreases self.half_edges@.len() - i,
        {
            match self.half_edges[i].full {
                Some(id) => {
                    if id.index >= objects.half_edges.len() {
                        return false;
                    }
                },
                None => {},
            }
            i = i + 1;
        }
        true
    }

    /// Whether the arena and the store fit together.
    pub fn is_ready(&self, objects: &crate::objects::Objects) -> (r: bool)
        ensures
            r == self@.ready(objects@),
    {
        self.is_well_formed() && objects.is_well_formed() && self.is_built_within(objects)
    }

    /// Puts a partial surface into the arena.
    pub fn insert_surface(&mut self, partial: PartialSurface) -> (h: SurfaceHandle)
        ensures
            h.index == old(self)@.surfaces.len(),
            final(self)@ == old(self)@.with_surface(partial),
            final(self)@.keeps_built(old(self)@),
            old(self)@.wf() ==> final(self)@.wf(),
    {
        let h = SurfaceHandle { index: self.surfaces.len() };
        self.surfaces.push(Slot { partial, full: None });
        h
    }

    /// Puts a partial curve into the arena.
    pub fn insert_curve(&mut self, partial: PartialCurve) -> (h: CurveHandle)
        ensures
            h.index == old(self)@.curves.len(),
            final(self)@ == old(self)@.with_curve(partial),
            final(self)@.keeps_built(old(self)@),
            old(self)@.wf() && partial.wf_in(old(self)@) ==> final(self)@.wf(),
    {
        let h = CurveHandle { index: self.curves.len() };
        self.curves.push(Slot { partial, full: None });
        h
    }

    /// Puts a partial global vertex into the arena.
    pub fn insert_global_vertex(&mut self, partial: PartialGlobalVertex) -> (h: GlobalVertexHandle)
        ensures
            h.index == old(self)@.global_vertices.len(),
            final(self)@ == old(self)@.with_global_vertex(partial),
            final(self)@.keeps_built(old(self)@),
            old(self)@.wf() ==> final(self)@.wf(),
    {
        let h = GlobalVertexHandle { index: self.global_vertices.len() };
        self.global_vertices.push(Slot { partial, full: None });
        h
    }

    /// Puts a partial surface vertex into the arena.
    pub fn insert_surface_vertex(&mut self, partial: PartialSurfaceVertex) -> (h:
        SurfaceVertexHandle)
        ensures
            h.index == old(self)@.surface_vertices.len(),
            final(self)@ == old(self)@.with_surface_vertex(partial),
            final(self)@.keeps_built(old(self)@),
            old(self)@.wf() && partial.wf_in(old(self)@) ==> final(self)@.wf(),
    {
        let h = SurfaceVertexHandle { index: self.surface_vertices.len() };
        self.surface_vertices.push(Slot { partial, full: None });
        h
    }

    /// Puts a partial vertex into the arena.
    pub fn insert_vertex(&mut self, partial: PartialVertex) -> (h: VertexHandle)
        ensures
            h.index == old(self)@.vertices.len(),
            final(self)@ == old(self)@.with_vertex(partial),
            final(self)@.keeps_built(old(self)@),
            old(self)@.wf() && partial.wf_in(old(self)@) ==> final(self)@.wf(),
    {
        let h = VertexHandle { index: self.vertices.len() };
        self.vertices.push(Slot { partial, full: None });
        h
    }

    /// Puts a partial half-edge into the arena.
    pub fn insert_half_edge(&mut self, partial: PartialHalfEdge) -> (h: HalfEdgeHandle)
        ensures
            h.index == old(self)@.half_edges.len(),
            final(self)@ == old(self)@.with_half_edge(partial),
            final(self)@.keeps_built(old(self)@),
            old(self)@.wf() && partial.wf_in(old(self)@) ==> final(self)@.wf(),
    {
        let h = HalfEdgeHandle { index: self.half_edges.len() };
        self.half_edges.push(Slot { partial, full: None });
        h
    }

    /// Puts a new partial surface into the arena, of which nothing is set.
    pub fn new_surface(&mut self) -> (h: SurfaceHandle)
        ensures
            h.index == old(self)@.surfaces.len(),
            final(self)@ == old(self)@.with_surface(PartialSurface { geometry: None }),
            final(self)@.keeps_built(old(self)@),
            old(self)@.wf() ==> final(self)@.wf(),
    {
        self.insert_surface(PartialSurface::default())
    }

    /// Puts a new partial global vertex into the arena, of which nothing is
    /// set.
    pub fn new_global_vertex(&mut self) -> (h: GlobalVertexHandle)
        ensures
            h.index == old(self)@.global_vertices.len(),
            final(self)@ == old(self)@.with_global_vertex(PartialGlobalVertex { position: None }),
            final(self)@.keeps_built(old(self)@),
            old(self)@.wf() ==> final(self)@.wf(),
    {
        self.insert_global_vertex(PartialGlobalVertex::default())
    }

    /// Puts a new partial curve into the arena, of which nothing is set; it
    /// lies in a new partial surface.
    pub fn new_curve(&mut self) -> (h: CurveHandle)
        ensures
            h.index == old(self)@.curves.len(),
            final(self)@ == old(self)@.with_surface(PartialSurface { geometry: None }).with_curve(
                PartialCurve {
                    path: None,
                    surface: SurfaceHandle { index: old(self)@.surfaces.len() as usize },
                },
            ),
            final(self)@.keeps_built(old(self)@),
            old(self)@.wf() ==> final(self)@.wf(),
    {
        let partial = PartialCurve::default(self);
        self.insert_curve(partial)
    }

    /// Puts a new partial surface vertex into the arena, of which nothing is
    /// set; it lies in a new partial surface and has a new global form.
    pub fn new_surface_vertex(&mut self) -> (h: SurfaceVertexHandle)
        ensures
            h.index == old(self)@.surface_vertices.len(),
            final(self)@ == old(self)@.with_surface(
                PartialSurface { geometry: None },
            ).with_global_vertex(PartialGlobalVertex { position: None }).with_surface_vertex(
                PartialSurfaceVertex {
                    position: None,
                    surface: SurfaceHandle { index: old(self)@.surfaces.len() as usize },
                    global_form: GlobalVertexHandle {
                        index: old(self)@.global_vertices.len() as usize,
                    },
                },
            ),
            final(self)@.keeps_built(old(self)@),
            old(self)@.wf() ==> final(self)@.wf(),
    {
        let partial = PartialSurfaceVertex::default(self);
        self.insert_surface_vertex(partial)
    }

    /// Puts a new partial vertex into the arena, of which nothing is set; it
    /// lies on a new partial curve and has a new surface form.
    pub fn new_vertex(&mut self) -> (h: VertexHandle)
        ensures
            h.index == old(self)@.vertices.len(),
            final(self)@ == PartialVertex::default_in(old(self)@).with_vertex(
                PartialVertex {
                    position: None,
                    curve: CurveHandle { index: old(self)@.curves.len() as usize },
                    surface_form: SurfaceVertexHandle {
                        index: old(self)@.surface_vertices.len() as usize,
                    },
                },
            ),
            final(self)@.keeps_built(old(self)@),
            old(self)@.wf() ==> final(self)@.wf(),
    {
        let partial = PartialVertex::default(self);
        self.insert_vertex(partial)
    }

    /// Puts a new partial half-edge into the arena, of which nothing is set;
    /// it joins two new partial vertices on a new partial curve.
    pub fn new_half_edge(&mut self) -> (h: HalfEdgeHandle)
        ensures
            h.index == old(self)@.half_edges.len(),
            final(self)@ == PartialHalfEdge::default_in(old(self)@).with_half_edge(
                PartialHalfEdge::default_of(old(self)@),
            ),
            final(self)@.keeps_built(old(self)@),
            old(self)@.wf() ==> final(self)@.wf(),
    {
        let partial = PartialHalfEdge::default(self);
        self.insert_half_edge(partial)
    }

    /// The partial surface that `h` refers to.
    pub fn read_surface(&self, h: SurfaceHandle) -> (r: PartialSurface)
        requires
            self@.has_surface(h),
        ensures
            r == self@.surface(h),
    {
        self.surfaces[h.index].partial
    }

    /// The partial curve that `h` refers to.
    pub fn read_curve(&self, h: CurveHandle) -> (r: PartialCurve)
        requires
            self@.has_curve(h),
        ensures
            r == self@.curve(h),
    {
        self.curves[h.index].partial
    }

    /// The partial global vertex that `h` refers to.
    pub fn read_global_vertex(&self, h: GlobalVertexHandle) -> (r: PartialGlobalVertex)
        requires
            self@.has_global_vertex(h),
        ensures
            r == self@.global_vertex(h),
    {
        self.global_vertices[h.index].partial
    }

    /// The partial surface vertex that `h` refers to.
    pub fn read_surface_vertex(&self, h: SurfaceVertexHandle) -> (r: PartialSurfaceVertex)
        requires
            self@.has_surface_vertex(h),
        ensures
            r == self@.surface_vertex(h),
    {
        self.surface_vertices[h.index].partial
    }

    /// The partial vertex that `h` refers to.
    pub fn read_vertex(&self, h: VertexHandle) -> (r: PartialVertex)
        requires
            self@.has_vertex(h),
        ensures
            r == self@.vertex(h),
    {
        self.vertices[h.index].partial
    }

    /// The partial half-edge that `h` refers to.
    pub fn read_half_edge(&self, h: HalfEdgeHandle) -> (r: PartialHalfEdge)
        requires
            self@.has_half_edge(h),
        ensures
            r == self@.half_edge(h),
    {
        self.half_edges[h.index].partial
    }

    /// Replaces the partial surface that `h` refers to, and forgets what was
    /// built from it.
    pub fn write_surface(&mut self, h: SurfaceHandle, partial: PartialSurface)
        requires
            old(self)@.has_surface(h),
        ensures
            final(self)@ == old(self)@.set_surface(h, partial),
            final(self)@.keeps_built(old(self)@),
            old(self)@.wf() ==> final(self)@.wf(),
    {
        self.surfaces.set(h.index, Slot { partial, full: None });
    }

    /// Replaces the partial curve that `h` refers to, and forgets what was
    /// built from it.
    pub fn write_curve(&mut self, h: CurveHandle, partial: PartialCurve)
        requires
            old(self)@.has_curve(h),
        ensures
            final(self)@ == old(self)@.set_curve(h, partial),
            final(self)@.keeps_built(old(self)@),
            old(self)@.wf() && partial.wf_in(old(self)@) ==> final(self)@.wf(),
    {
        self.curves.set(h.index, Slot { partial, full: None });
    }

    /// Replaces the partial global vertex that `h` refers to, and forgets what
    /// was built from it.
    pub fn write_global_vertex(&mut self, h: GlobalVertexHandle, partial: PartialGlobalVertex)
        requires
            old(self)@.has_global_vertex(h),
        ensures
            final(self)@ == old(self)@.set_global_vertex(h, partial),
            final(self)@.keeps_built(old(self)@),
            old(self)@.wf() ==> final(self)@.wf(),
    {
        self.global_vertices.set(h.index, Slot { partial, full: None });
    }

    /// Replaces the partial surface vertex that `h` refers to, and forgets
    /// what was built from it.
    pub fn write_surface_vertex(&mut self, h: SurfaceVertexHandle, partial: PartialSurfaceVertex)
        requires
            old(self)@.has_surface_vertex(h),
        ensures
            final(self)@ == old(self)@.set_surface_vertex(h, partial),
            final(self)@.keeps_built(old(self)@),
            old(self)@.wf() && partial.wf_in(old(self)@) ==> final(self)@.wf(),
    {
        self.surface_vertices.set(h.index, Slot { partial, full: None });
    }

    /// Replaces the partial vertex that `h` refers to, and forgets what was
    /// built from it.
    pub fn write_vertex(&mut self, h: VertexHandle, partial: PartialVertex)
        requires
            old(self)@.has_vertex(h),
        ensures
            final(self)@ == old(self)@.set_vertex(h, partial),
            final(self)@.keeps_built(old(self)@),
            old(self)@.wf() && partial.wf_in(old(self)@) ==> final(self)@.wf(),
    {
        self.vertices.set(h.index, Slot { partial, full: None });
    }

    /// Replaces the partial half-edge that `h` refers to, and forgets what was
    /// built from it.
    pub fn write_half_edge(&mut self, h: HalfEdgeHandle, partial: PartialHalfEdge)
        requires
            old(self)@.has_half_edge(h),
        ensures
            final(self)@ == old(self)@.set_half_edge(h, partial),
            final(self)@.keeps_built(old(self)@),
            old(self)@.wf() && partial.wf_in(old(self)@) ==> final(self)@.wf(),
    {
        self.half_edges.set(h.index, Slot { partial, full: None });
    }
}

/// What an arena holds stays in its place while the arena grows.
pub proof fn lemma_prefix_grows(a: PartialsView, b: PartialsView, c: PartialsView)
    requires
        a.prefix_of(b),
        b.prefix_of(c),
    ensures
        a.prefix_of(c),
{
    assert forall|i: int| 0 <= i < a.surfaces.len() implies #[trigger] c.surfaces[i]
        == a.surfaces[i] by {
        assert(b.surfaces[i] == a.surfaces[i]);
    }
    assert forall|i: int| 0 <= i < a.curves.len() implies #[trigger] c.curves[i]
        == a.curves[i] by {
        assert(b.curves[i] == a.curves[i]);
    }
    assert forall|i: int| 0 <= i < a.global_vertices.len() implies #[trigger] c.global_vertices[i]
        == a.global_vertices[i] by {
        assert(b.global_vertices[i] == a.global_vertices[i]);
    }
    assert forall|i: int| 0 <= i < a.surface_vertices.len() implies #[trigger] c.surface_vertices[i]
        == a.surface_vertices[i] by {
        assert(b.surface_vertices[i] == a.surface_vertices[i]);
    }
    assert forall|i: int| 0 <= i < a.vertices.len() implies #[trigger] c.vertices[i]
        == a.vertices[i] by {
        assert(b.vertices[i] == a.vertices[i]);
    }
    assert forall|i: int| 0 <= i < a.half_edges.len() implies #[trigger] c.half_edges[i]
        == a.half_edges[i] by {
        assert(b.half_edges[i] == a.half_edges[i]);
    }
}

/// What an arena remembers of a store is in the store still when the store
/// has grown.
pub proof fn lemma_built_within_grows(
    partials: PartialsView,
    before: ObjectsView,
    after: ObjectsView,
)
    requires
        partials.built_within(before),
        before.prefix_of(after),
    ensures
        partials.built_within(after),
{
}

/// Surface positions that are known stay known over any number of steps.
pub proof fn lemma_positions_kept(a: PartialsView, b: PartialsView, c: PartialsView)
    requires
        a.positions_kept_in(b),
        b.positions_kept_in(c),
    ensures
        a.positions_kept_in(c),
{
    assert forall|i: int|
        0 <= i < a.surface_vertices.len() && (
        #[trigger] a.surface_vertices[i]).partial.position.is_some() implies c.surface_vertices[i].partial.position
        == a.surface_vertices[i].partial.position by {
        assert(b.surface_vertices[i].partial.position == a.surface_vertices[i].partial.position);
    }
}

/// An arena with the same partial surface vertices knows the same surface
/// positions.
pub proof fn lemma_same_forms_keep(a: PartialsView, b: PartialsView)
    requires
        a.same_forms(b),
    ensures
        a.positions_kept_in(b),
{
    assert forall|i: int|
        0 <= i < a.surface_vertices.len() && (
        #[trigger] a.surface_vertices[i]).partial.position.is_some() implies b.surface_vertices[i].partial.position
        == a.surface_vertices[i].partial.position by {
        assert(b.surface_vertices[i].partial == a.surface_vertices[i].partial);
    }
}

} // verus!
