//! Deriving partial objects from full objects.
//!
//! A partial object that is derived from a full object remembers that full
//! object, so building it again, unchanged, gives the object it came from. A
//! cache records which partial object was derived from which full object, so
//! that what two full objects share is shared by the partial objects that are
//! derived from them.

use vstd::prelude::*;
use crate::objects::{
    CurveId, GlobalVertex, GlobalVertexId, HalfEdge, HalfEdgeId, Objects, ObjectsView, Surface,
    SurfaceId, SurfaceVertex, SurfaceVertexId, Vertex, VertexId,
};
use crate::partial::edge::PartialHalfEdge;
use crate::partial::curve::PartialCurve;
use crate::partial::surface::PartialSurface;
use crate::partial::vertex::{PartialGlobalVertex, PartialSurfaceVertex, PartialVertex};
use crate::partial::{
    CurveHandle, GlobalVertexHandle, HalfEdgeHandle, Partials, PartialsView, Slot, SurfaceHandle,
    SurfaceVertexHandle, VertexHandle,
};

verus! {

/// Records that the partial object at place `partial` of the arena was derived
/// from the full object at place `full` of the store.
#[derive(Clone, Copy, Debug, PartialEq, Eq, Structural)]
pub struct Link {
    pub full: usize,
    pub partial: usize,
}

/// What has been derived from what, for each kind of object.
pub struct FullToPartialCache {
    pub surfaces: Vec<Link>,
    pub curves: Vec<Link>,
    pub global_vertices: Vec<Link>,
    pub surface_vertices: Vec<Link>,
    pub vertices: Vec<Link>,
    pub half_edges: Vec<Link>,
}

/// The contents of a cache.
pub struct CacheView {
    pub surfaces: Seq<Link>,
    pub curves: Seq<Link>,
    pub global_vertices: Seq<Link>,
    pub surface_vertices: Seq<Link>,
    pub vertices: Seq<Link>,
    pub half_edges: Seq<Link>,
}

/// The arena, the cache and the result after a partial object was derived.
pub struct Derived<T> {
    pub partials: PartialsView,
    pub cache: CacheView,
    pub result: T,
}

impl View for FullToPartialCache {
    type V = CacheView;

    open spec fn view(&self) -> CacheView {
        CacheView {
            surfaces: self.surfaces@,
            curves: self.curves@,
            global_vertices: self.global_vertices@,
            surface_vertices: self.surface_vertices@,
            vertices: self.vertices@,
            half_edges: self.half_edges@,
        }
    }
}

/// The place of the partial object that the first link at or after `from`
/// records for the full object at `full`.
pub open spec fn lookup(links: Seq<Link>, full: usize, from: int) -> Option<usize>
    decreases links.len() - from,
{
    if from < 0 || from >= links.len() {
        None
    } else if links[from].full == full {
        Some(links[from].partial)
    } else {
        lookup(links, full, from + 1)
    }
}

/// Every link leads to a place below `limit`.
pub open spec fn links_within(links: Seq<Link>, limit: nat) -> bool {
    forall|i: int| 0 <= i < links.len() ==> (#[trigger] links[i]).partial < limit
}

/// What is looked up is what some link records.
pub proof fn lemma_lookup(links: Seq<Link>, full: usize, from: int)
    requires
        0 <= from <= links.len(),
    ensures
        lookup(links, full, from).is_some() ==> exists|i: int|
            from <= i < links.len() && (#[trigger] links[i]).full == full && links[i].partial
                == lookup(links, full, from).unwrap(),
        lookup(links, full, from).is_none() ==> forall|i: int|
            from <= i < links.len() ==> (#[trigger] links[i]).full != full,
    decreases links.len() - from,
{
    if from < links.len() && links[from].full != full {
        lemma_lookup(links, full, from + 1);
    }
}

/// A link that is added at the end is found for its full object if nothing
/// was found for it before, and changes nothing for any other full object.
pub proof fn lemma_lookup_push(links: Seq<Link>, link: Link, full: usize, from: int)
    requires
        0 <= from <= links.len(),
    ensures
        lookup(links.push(link), full, from) == if lookup(links, full, from).is_some() {
            lookup(links, full, from)
        } else if link.full == full {
            Some(link.partial)
        } else {
            None
        },
    decreases links.len() - from,
{
    let longer = links.push(link);
    if from < links.len() {
        assert(longer[from] == links[from]);
        if links[from].full != full {
            lemma_lookup_push(links, link, full, from + 1);
        }
    } else {
        assert(longer[from] == link);
        assert(lookup(longer, full, from + 1).is_none());
    }
}

/// Looks up the partial object that was derived from the full object at
/// `full`.
pub fn find(links: &Vec<Link>, full: usize) -> (r: Option<usize>)
    ensures
        r == lookup(links@, full, 0),
{
    let mut i: usize = 0;
    while i < links.len()
        invariant
            0 <= i <= links@.len(),
            lookup(links@, full, 0) == lookup(links@, full, i as int),
        decreases links@.len() - i,
    {
        if links[i].full == full {
            return Some(links[i].partial);
        }
        i = i + 1;
    }
    None
}

impl CacheView {
    /// Every link leads to a place of the arena.
    pub open spec fn wf_in(&self, partials: PartialsView) -> bool {
        &&& links_within(self.surfaces, partials.surfaces.len())
        &&& links_within(self.curves, partials.curves.len())
        &&& links_within(self.global_vertices, partials.global_vertices.len())
        &&& links_within(self.surface_vertices, partials.surface_vertices.len())
        &&& links_within(self.vertices, partials.vertices.len())
        &&& links_within(self.half_edges, partials.half_edges.len())
    }

    /// Nothing is recorded.
    pub open spec fn is_empty(&self) -> bool {
        &&& self.surfaces.len() == 0
        &&& self.curves.len() == 0
        &&& self.global_vertices.len() == 0
        &&& self.surface_vertices.len() == 0
        &&& self.vertices.len() == 0
        &&& self.half_edges.len() == 0
    }
}

impl FullToPartialCache {
    /// A cache in which nothing is recorded.
    pub fn new() -> (r: FullToPartialCache)
        ensures
            r@.is_empty(),
    {
        FullToPartialCache {
            surfaces: Vec::new(),
            curves: Vec::new(),
            global_vertices: Vec::new(),
            surface_vertices: Vec::new(),
            vertices: Vec::new(),
            half_edges: Vec::new(),
        }
    }
}

/// The arena has room for `spare` more partial objects of each kind, and one
/// more: no place of it will be beyond what the machine can count.
pub open spec fn room(partials: PartialsView, spare: nat) -> bool {
    &&& partials.surfaces.len() + spare < usize::MAX
    &&& partials.curves.len() + spare < usize::MAX
    &&& partials.global_vertices.len() + spare < usize::MAX
    &&& partials.surface_vertices.len() + spare < usize::MAX
    &&& partials.vertices.len() + spare < usize::MAX
    &&& partials.half_edges.len() + spare < usize::MAX
}

/// What deriving a partial surface from the full surface `id` does. If the
/// cache records a partial surface for it, that is the result. Else a partial
/// surface with the geometry of the full one is put into the arena, at a
/// place that remembers the full one, and the cache records it.
pub open spec fn surface_derived(
    partials: PartialsView,
    cache: CacheView,
    objects: ObjectsView,
    id: SurfaceId,
) -> Derived<SurfaceHandle> {
    match lookup(cache.surfaces, id.index, 0) {
        Some(h) => Derived { partials, cache, result: SurfaceHandle { index: h } },
        None => {
            let h = SurfaceHandle { index: partials.surfaces.len() as usize };
            let partial = PartialSurface::derived(objects.surfaces[id.index as int]);
            Derived {
                partials: PartialsView {
                    surfaces: partials.surfaces.push(Slot { partial, full: Some(id) }),
                    ..partials
                },
                cache: CacheView {
                    surfaces: cache.surfaces.push(Link { full: id.index, partial: h.index }),
                    ..cache
                },
                result: h,
            }
        },
    }
}

/// What deriving a partial global vertex from the full one `id` does; as for a
/// surface.
pub open spec fn global_vertex_derived(
    partials: PartialsView,
    cache: CacheView,
    objects: ObjectsView,
    id: GlobalVertexId,
) -> Derived<GlobalVertexHandle> {
    match lookup(cache.global_vertices, id.index, 0) {
        Some(h) => Derived { partials, cache, result: GlobalVertexHandle { index: h } },
        None => {
            let h = GlobalVertexHandle { index: partials.global_vertices.len() as usize };
            let partial = PartialGlobalVertex::derived(objects.global_vertices[id.index as int]);
            Derived {
                partials: PartialsView {
                    global_vertices: partials.global_vertices.push(
                        Slot { partial, full: Some(id) },
                    ),
                    ..partials
                },
                cache: CacheView {
                    global_vertices: cache.global_vertices.push(
                        Link { full: id.index, partial: h.index },
                    ),
                    ..cache
                },
                result: h,
            }
        },
    }
}

/// What deriving a partial curve from the full curve `id` does. If the cache
/// records a partial curve for it, that is the result. Else the partial curve
/// is derived, which derives its surface; it is put into the arena, at a place
/// that remembers the full curve, and the cache records it.
pub open spec fn curve_derived(
    partials: PartialsView,
    cache: CacheView,
    objects: ObjectsView,
    id: CurveId,
) -> Derived<CurveHandle> {
    match lookup(cache.curves, id.index, 0) {
        Some(h) => Derived { partials, cache, result: CurveHandle { index: h } },
        None => {
            let d = PartialCurve::derived(objects.curves[id.index as int], partials, cache, objects);
            let h = CurveHandle { index: d.partials.curves.len() as usize };
            Derived {
                partials: PartialsView {
                    curves: d.partials.curves.push(Slot { partial: d.result, full: Some(id) }),
                    ..d.partials
                },
                cache: CacheView {
                    curves: d.cache.curves.push(Link { full: id.index, partial: h.index }),
                    ..d.cache
                },
                result: h,
            }
        },
    }
}

/// What deriving a partial surface vertex from the full one `id` does; as for
/// a curve.
pub open spec fn surface_vertex_derived(
    partials: PartialsView,
    cache: CacheView,
    objects: ObjectsView,
    id: SurfaceVertexId,
) -> Derived<SurfaceVertexHandle> {
    match lookup(cache.surface_vertices, id.index, 0) {
        Some(h) => Derived { partials, cache, result: SurfaceVertexHandle { index: h } },
        None => {
            let d = PartialSurfaceVertex::derived(
                objects.surface_vertices[id.index as int],
                partials,
                cache,
                objects,
            );
            let h = SurfaceVertexHandle { index: d.partials.surface_vertices.len() as usize };
            Derived {
                partials: PartialsView {
                    surface_vertices: d.partials.surface_vertices.push(
                        Slot { partial: d.result, full: Some(id) },
                    ),
                    ..d.partials
                },
                cache: CacheView {
                    surface_vertices: d.cache.surface_vertices.push(
                        Link { full: id.index, partial: h.index },
                    ),
                    ..d.cache
                },
                result: h,
            }
        },
    }
}

/// What deriving a partial vertex from the full vertex `id` does; as for a
/// curve.
pub open spec fn vertex_derived(
    partials: PartialsView,
    cache: CacheView,
    objects: ObjectsView,
    id: VertexId,
) -> Derived<VertexHandle> {
    match lookup(cache.vertices, id.index, 0) {
        Some(h) => Derived { partials, cache, result: VertexHandle { index: h } },
        None => {
            let d = PartialVertex::derived(
                objects.vertices[id.index as int],
                partials,
                cache,
                objects,
            );
            let h = VertexHandle { index: d.partials.vertices.len() as usize };
            Derived {
                partials: PartialsView {
                    vertices: d.partials.vertices.push(Slot { partial: d.result, full: Some(id) }),
                    ..d.partials
                },
                cache: CacheView {
                    vertices: d.cache.vertices.push(Link { full: id.index, partial: h.index }),
                    ..d.cache
                },
                result: h,
            }
        },
    }
}

/// What deriving a partial half-edge from the full half-edge `id` does; as
/// for a curve.
pub open spec fn half_edge_derived(
    partials: PartialsView,
    cache: CacheView,
    objects: ObjectsView,
    id: HalfEdgeId,
) -> Derived<HalfEdgeHandle> {
    match lookup(cache.half_edges, id.index, 0) {
        Some(h) => Derived { partials, cache, result: HalfEdgeHandle { index: h } },
        None => {
            let d = PartialHalfEdge::derived(
                objects.half_edges[id.index as int],
                partials,
                cache,
                objects,
            );
            let h = HalfEdgeHandle { index: d.partials.half_edges.len() as usize };
            Derived {
                partials: PartialsView {
                    half_edges: d.partials.half_edges.push(
                        Slot { partial: d.result, full: Some(id) },
                    ),
                    ..d.partials
                },
                cache: CacheView {
                    half_edges: d.cache.half_edges.push(Link { full: id.index, partial: h.index }),
                    ..d.cache
                },
                result: h,
            }
        },
    }
}

impl PartialHalfEdge {
    /// What deriving a partial half-edge from a full one does: its back
    /// vertex, its front vertex and the two global vertices of its global
    /// form are derived, in this order, and the partial half-edge joins what
    /// was derived.
    pub open spec fn derived(
        edge: HalfEdge,
        partials: PartialsView,
        cache: CacheView,
        objects: ObjectsView,
    ) -> Derived<PartialHalfEdge> {
        let back = vertex_derived(partials, cache, objects, edge.vertices[0]);
        let front = vertex_derived(back.partials, back.cache, objects, edge.vertices[1]);
        let first = global_vertex_derived(
            front.partials,
            front.cache,
            objects,
            edge.global_form[0],
        );
        let second = global_vertex_derived(
            first.partials,
            first.cache,
            objects,
            edge.global_form[1],
        );
        Derived {
            partials: second.partials,
            cache: second.cache,
            result: PartialHalfEdge {
                vertices: [back.result, front.result],
                global_form: [first.result, second.result],
            },
        }
    }

    /// Derives a partial half-edge from a full one.
    pub fn from_full(
        half_edge: &HalfEdge,
        cache: &mut FullToPartialCache,
        partials: &mut Partials,
        objects: &Objects,
    ) -> (r: PartialHalfEdge)
        requires
            old(partials)@.ready(objects@),
            old(cache)@.wf_in(old(partials)@),
            room(old(partials)@, 4),
            half_edge.vertices[0].index < objects@.vertices.len(),
            half_edge.vertices[1].index < objects@.vertices.len(),
            half_edge.global_form[0].index < objects@.global_vertices.len(),
            half_edge.global_form[1].index < objects@.global_vertices.len(),
        ensures
            (Derived { partials: final(partials)@, cache: final(cache)@, result: r })
                == Self::derived(*half_edge, old(partials)@, old(cache)@, objects@),
            final(partials)@.ready(objects@),
            final(cache)@.wf_in(final(partials)@),
            old(partials)@.prefix_of(final(partials)@),
            r.wf_in(final(partials)@),
            final(partials)@.half_edges == old(partials)@.half_edges,
    {
        let ghost start = partials@;
        let v0 = partials.vertex_from_full(half_edge.vertices[0], cache, objects);
        let ghost one = partials@;
        let v1 = partials.vertex_from_full(half_edge.vertices[1], cache, objects);
        let ghost two = partials@;
        proof {
            crate::partial::lemma_prefix_grows(start, one, two);
        }
        let g0 = partials.global_vertex_from_full(half_edge.global_form[0], cache, objects);
        let ghost three = partials@;
        proof {
            crate::partial::lemma_prefix_grows(start, two, three);
        }
        let g1 = partials.global_vertex_from_full(half_edge.global_form[1], cache, objects);
        proof {
            crate::partial::lemma_prefix_grows(start, three, partials@);
        }
        PartialHalfEdge { vertices: [v0, v1], global_form: [g0, g1] }
    }
}

impl PartialSurface {
    /// The partial surface with the geometry of the full one.
    pub open spec fn derived(surface: Surface) -> PartialSurface {
        PartialSurface { geometry: Some(surface.geometry) }
    }

    /// Derives a partial surface from a full one. The cache is not needed for
    /// that, and is left as it is.
    pub fn from_full(surface: &Surface, cache: &mut FullToPartialCache) -> (r: PartialSurface)
        ensures
            r == Self::derived(*surface),
            final(cache)@ == old(cache)@,
    {
        PartialSurface { geometry: Some(surface.geometry) }
    }
}

impl PartialGlobalVertex {
    /// The partial global vertex with the position of the full one.
    pub open spec fn derived(vertex: GlobalVertex) -> PartialGlobalVertex {
        PartialGlobalVertex { position: Some(vertex.position) }
    }

    /// Derives a partial global vertex from a full one. The cache is not
    /// needed for that, and is left as it is.
    pub fn from_full(global_vertex: &GlobalVertex, cache: &mut FullToPartialCache) -> (r:
        PartialGlobalVertex)
        ensures
            r == Self::derived(*global_vertex),
            final(cache)@ == old(cache)@,
    {
        PartialGlobalVertex { position: Some(global_vertex.position) }
    }
}

impl PartialCurve {
    /// What deriving a partial curve from a full one does: its surface is
    /// derived, and the partial curve has the path of the full one, in that
    /// surface.
    pub open spec fn derived(
        curve: crate::objects::Curve,
        partials: PartialsView,
        cache: CacheView,
        objects: ObjectsView,
    ) -> Derived<PartialCurve> {
        let s = surface_derived(partials, cache, objects, curve.surface);
        Derived {
            partials: s.partials,
            cache: s.cache,
            result: PartialCurve { path: Some(curve.path), surface: s.result },
        }
    }

    /// Derives a partial curve from a full one.
    pub fn from_full(
        curve: &crate::objects::Curve,
        cache: &mut FullToPartialCache,
        partials: &mut Partials,
        objects: &Objects,
    ) -> (r: PartialCurve)
        requires
            old(partials)@.ready(objects@),
            old(cache)@.wf_in(old(partials)@),
            room(old(partials)@, 0),
            curve.surface.index < objects@.surfaces.len(),
        ensures
            (Derived { partials: final(partials)@, cache: final(cache)@, result: r })
                == Self::derived(*curve, old(partials)@, old(cache)@, objects@),
            final(partials)@.ready(objects@),
            final(cache)@.wf_in(final(partials)@),
            old(partials)@.prefix_of(final(partials)@),
            r.wf_in(final(partials)@),
            final(partials)@.surfaces.len() <= old(partials)@.surfaces.len() + 1,
            final(partials)@.curves == old(partials)@.curves,
            final(partials)@.global_vertices == old(partials)@.global_vertices,
            final(partials)@.surface_vertices == old(partials)@.surface_vertices,
            final(partials)@.vertices == old(partials)@.vertices,
            final(partials)@.half_edges == old(partials)@.half_edges,
    {
        let surface = partials.surface_from_full(curve.surface, cache, objects);
        PartialCurve { path: Some(curve.path), surface }
    }
}

impl PartialSurfaceVertex {
    /// What deriving a partial surface vertex from a full one does: its
    /// surface and then its global form are derived, and the partial surface
    /// vertex has the position of the full one, in that surface, with that
    /// global form.
    pub open spec fn derived(
        vertex: SurfaceVertex,
        partials: PartialsView,
        cache: CacheView,
        objects: ObjectsView,
    ) -> Derived<PartialSurfaceVertex> {
        let s = surface_derived(partials, cache, objects, vertex.surface);
        let g = global_vertex_derived(s.partials, s.cache, objects, vertex.global_form);
        Derived {
            partials: g.partials,
            cache: g.cache,
            result: PartialSurfaceVertex {
                position: Some(vertex.position),
                surface: s.result,
                global_form: g.result,
            },
        }
    }

    /// Derives a partial surface vertex from a full one.
    pub fn from_full(
        surface_vertex: &SurfaceVertex,
        cache: &mut FullToPartialCache,
        partials: &mut Partials,
        objects: &Objects,
    ) -> (r: PartialSurfaceVertex)
        requires
            old(partials)@.ready(objects@),
            old(cache)@.wf_in(old(partials)@),
            room(old(partials)@, 0),
            surface_vertex.surface.index < objects@.surfaces.len(),
            surface_vertex.global_form.index < objects@.global_vertices.len(),
        ensures
            (Derived { partials: final(partials)@, cache: final(cache)@, result: r })
                == Self::derived(*surface_vertex, old(partials)@, old(cache)@, objects@),
            final(partials)@.ready(objects@),
            final(cache)@.wf_in(final(partials)@),
            old(partials)@.prefix_of(final(partials)@),
            r.wf_in(final(partials)@),
            final(partials)@.surfaces.len() <= old(partials)@.surfaces.len() + 1,
            final(partials)@.global_vertices.len() <= old(partials)@.global_vertices.len() + 1,
            final(partials)@.curves == old(partials)@.curves,
            final(partials)@.surface_vertices == old(partials)@.surface_vertices,
            final(partials)@.vertices == old(partials)@.vertices,
            final(partials)@.half_edges == old(partials)@.half_edges,
    {
        let surface = partials.surface_from_full(surface_vertex.surface, cache, objects);
        let global_form = partials.global_vertex_from_full(
            surface_vertex.global_form,
            cache,
            objects,
        );
        PartialSurfaceVertex { position: Some(surface_vertex.position), surface, global_form }
    }
}

impl PartialVertex {
    /// What deriving a partial vertex from a full one does: its curve and then
    /// its surface form are derived, and the partial vertex has the position
    /// of the full one, on that curve, with that surface form.
    pub open spec fn derived(
        vertex: Vertex,
        partials: PartialsView,
        cache: CacheView,
        objects: ObjectsView,
    ) -> Derived<PartialVertex> {
        let c = curve_derived(partials, cache, objects, vertex.curve);
        let s = surface_vertex_derived(c.partials, c.cache, objects, vertex.surface_form);
        Derived {
            partials: s.partials,
            cache: s.cache,
            result: PartialVertex {
                position: Some(vertex.position),
                curve: c.result,
                surface_form: s.result,
            },
        }
    }

    /// Derives a partial vertex from a full one.
    pub fn from_full(
        vertex: &Vertex,
        cache: &mut FullToPartialCache,
        partials: &mut Partials,
        objects: &Objects,
    ) -> (r: PartialVertex)
        requires
            old(partials)@.ready(objects@),
            old(cache)@.wf_in(old(partials)@),
            room(old(partials)@, 1),
            vertex.curve.index < objects@.curves.len(),
            vertex.surface_form.index < objects@.surface_vertices.len(),
        ensures
            (Derived { partials: final(partials)@, cache: final(cache)@, result: r })
                == Self::derived(*vertex, old(partials)@, old(cache)@, objects@),
            final(partials)@.ready(objects@),
            final(cache)@.wf_in(final(partials)@),
            old(partials)@.prefix_of(final(partials)@),
            r.wf_in(final(partials)@),
            final(partials)@.vertices == old(partials)@.vertices,
            final(partials)@.half_edges == old(partials)@.half_edges,
            final(partials)@.surfaces.len() <= old(partials)@.surfaces.len() + 2,
            final(partials)@.curves.len() <= old(partials)@.curves.len() + 1,
            final(partials)@.global_vertices.len() <= old(partials)@.global_vertices.len() + 1,
            final(partials)@.surface_vertices.len() <= old(partials)@.surface_vertices.len() + 1,
    {
        let curve = partials.curve_from_full(vertex.curve, cache, objects);
        let surface_form = partials.surface_vertex_from_full(vertex.surface_form, cache, objects);
        PartialVertex { position: Some(vertex.position), curve, surface_form }
    }
}

impl Partials {
    /// The partial surface that is derived from the full surface `id`: the one
    /// that the cache records, or a new one.
    pub fn surface_from_full(
        &mut self,
        id: SurfaceId,
        cache: &mut FullToPartialCache,
        objects: &Objects,
    ) -> (h: SurfaceHandle)
        requires
            old(self)@.ready(objects@),
            old(cache)@.wf_in(old(self)@),
            old(self)@.surfaces.len() < usize::MAX,
            id.index < objects@.surfaces.len(),
        ensures
            (Derived { partials: final(self)@, cache: final(cache)@, result: h })
                == surface_derived(old(self)@, old(cache)@, objects@, id),
            final(self)@.ready(objects@),
            final(cache)@.wf_in(final(self)@),
            old(self)@.prefix_of(final(self)@),
            final(self)@.has_surface(h),
            final(self)@.surfaces.len() <= old(self)@.surfaces.len() + 1,
            final(self)@.curves == old(self)@.curves,
            final(self)@.global_vertices == old(self)@.global_vertices,
            final(self)@.surface_vertices == old(self)@.surface_vertices,
            final(self)@.vertices == old(self)@.vertices,
            final(self)@.half_edges == old(self)@.half_edges,
    {
        proof {
            lemma_lookup(cache@.surfaces, id.index, 0);
        }
        match find(&cache.surfaces, id.index) {
            Some(index) => SurfaceHandle { index },
            None => {
                let partial = PartialSurface::from_full(&objects.surfaces[id.index], cache);
                let index = self.surfaces.len();
                self.surfaces.push(Slot { partial, full: Some(id) });
                cache.surfaces.push(Link { full: id.index, partial: index });
                SurfaceHandle { index }
            },
        }
    }

    /// The partial global vertex that is derived from the full one `id`: the
    /// one that the cache records, or a new one.
    pub fn global_vertex_from_full(
        &mut self,
        id: GlobalVertexId,
        cache: &mut FullToPartialCache,
        objects: &Objects,
    ) -> (h: GlobalVertexHandle)
        requires
            old(self)@.ready(objects@),
            old(cache)@.wf_in(old(self)@),
            old(self)@.global_vertices.len() < usize::MAX,
            id.index < objects@.global_vertices.len(),
        ensures
            (Derived { partials: final(self)@, cache: final(cache)@, result: h })
                == global_vertex_derived(old(self)@, old(cache)@, objects@, id),
            final(self)@.ready(objects@),
            final(cache)@.wf_in(final(self)@),
            old(self)@.prefix_of(final(self)@),
            final(self)@.has_global_vertex(h),
            final(self)@.global_vertices.len() <= old(self)@.global_vertices.len() + 1,
            final(self)@.surfaces == old(self)@.surfaces,
            final(self)@.curves == old(self)@.curves,
            final(self)@.surface_vertices == old(self)@.surface_vertices,
            final(self)@.vertices == old(self)@.vertices,
            final(self)@.half_edges == old(self)@.half_edges,
    {
        proof {
            lemma_lookup(cache@.global_vertices, id.index, 0);
        }
        match find(&cache.global_vertices, id.index) {
            Some(index) => GlobalVertexHandle { index },
            None => {
                let partial = PartialGlobalVertex::from_full(
                    &objects.global_vertices[id.index],
                    cache,
                );
                let index = self.global_vertices.len();
                self.global_vertices.push(Slot { partial, full: Some(id) });
                cache.global_vertices.push(Link { full: id.index, partial: index });
                GlobalVertexHandle { index }
            },
        }
    }

    /// The partial curve that is derived from the full curve `id`: the one
    /// that the cache records, or a new one.
    pub fn curve_from_full(
        &mut self,
        id: CurveId,
        cache: &mut FullToPartialCache,
        objects: &Objects,
    ) -> (h: CurveHandle)
        requires
            old(self)@.ready(objects@),
            old(cache)@.wf_in(old(self)@),
            room(old(self)@, 0),
            id.index < objects@.curves.len(),
        ensures
            (Derived { partials: final(self)@, cache: final(cache)@, result: h }) == curve_derived(
                old(self)@,
                old(cache)@,
                objects@,
                id,
            ),
            final(self)@.ready(objects@),
            final(cache)@.wf_in(final(self)@),
            old(self)@.prefix_of(final(self)@),
            final(self)@.has_curve(h),
            final(self)@.surfaces.len() <= old(self)@.surfaces.len() + 1,
            final(self)@.curves.len() <= old(self)@.curves.len() + 1,
            final(self)@.global_vertices == old(self)@.global_vertices,
            final(self)@.surface_vertices == old(self)@.surface_vertices,
            final(self)@.vertices == old(self)@.vertices,
            final(self)@.half_edges == old(self)@.half_edges,
    {
        proof {
            lemma_lookup(cache@.curves, id.index, 0);
        }
        match find(&cache.curves, id.index) {
            Some(index) => CurveHandle { index },
            None => {
                let partial = PartialCurve::from_full(
                    &objects.curves[id.index],
                    cache,
                    self,
                    objects,
                );
                let index = self.curves.len();
                self.curves.push(Slot { partial, full: Some(id) });
                cache.curves.push(Link { full: id.index, partial: index });
                CurveHandle { index }
            },
        }
    }

    /// The partial surface vertex that is derived from the full one `id`: the
    /// one that the cache records, or a new one.
    pub fn surface_vertex_from_full(
        &mut self,
        id: SurfaceVertexId,
        cache: &mut FullToPartialCache,
        objects: &Objects,
    ) -> (h: SurfaceVertexHandle)
        requires
            old(self)@.ready(objects@),
            old(cache)@.wf_in(old(self)@),
            room(old(self)@, 0),
            id.index < objects@.surface_vertices.len(),
        ensures
            (Derived { partials: final(self)@, cache: final(cache)@, result: h })
                == surface_vertex_derived(old(self)@, old(cache)@, objects@, id),
            final(self)@.ready(objects@),
            final(cache)@.wf_in(final(self)@),
            old(self)@.prefix_of(final(self)@),
            final(self)@.has_surface_vertex(h),
            final(self)@.surfaces.len() <= old(self)@.surfaces.len() + 1,
            final(self)@.global_vertices.len() <= old(self)@.global_vertices.len() + 1,
            final(self)@.surface_vertices.len() <= old(self)@.surface_vertices.len() + 1,
            final(self)@.curves == old(self)@.curves,
            final(self)@.vertices == old(self)@.vertices,
            final(self)@.half_edges == old(self)@.half_edges,
    {
        proof {
            lemma_lookup(cache@.surface_vertices, id.index, 0);
        }
        match find(&cache.surface_vertices, id.index) {
            Some(index) => SurfaceVertexHandle { index },
            None => {
                let partial = PartialSurfaceVertex::from_full(
                    &objects.surface_vertices[id.index],
                    cache,
                    self,
                    objects,
                );
                let index = self.surface_vertices.len();
                self.surface_vertices.push(Slot { partial, full: Some(id) });
                cache.surface_vertices.push(Link { full: id.index, partial: index });
                SurfaceVertexHandle { index }
            },
        }
    }

    /// The partial vertex that is derived from the full vertex `id`: the one
    /// that the cache records, or a new one.
    pub fn vertex_from_full(
        &mut self,
        id: VertexId,
        cache: &mut FullToPartialCache,
        objects: &Objects,
    ) -> (h: VertexHandle)
        requires
            old(self)@.ready(objects@),
            old(cache)@.wf_in(old(self)@),
            room(old(self)@, 1),
            id.index < objects@.vertices.len(),
        ensures
            (Derived { partials: final(self)@, cache: final(cache)@, result: h }) == vertex_derived(
                old(self)@,
                old(cache)@,
                objects@,
                id,
            ),
            final(self)@.ready(objects@),
            final(cache)@.wf_in(final(self)@),
            old(self)@.prefix_of(final(self)@),
            final(self)@.has_vertex(h),
            final(self)@.half_edges == old(self)@.half_edges,
            final(self)@.surfaces.len() <= old(self)@.surfaces.len() + 2,
            final(self)@.curves.len() <= old(self)@.curves.len() + 1,
            final(self)@.global_vertices.len() <= old(self)@.global_vertices.len() + 1,
            final(self)@.surface_vertices.len() <= old(self)@.surface_vertices.len() + 1,
            final(self)@.vertices.len() <= old(self)@.vertices.len() + 1,
    {
        proof {
            lemma_lookup(cache@.vertices, id.index, 0);
        }
        match find(&cache.vertices, id.index) {
            Some(index) => VertexHandle { index },
            None => {
                let partial = PartialVertex::from_full(
                    &objects.vertices[id.index],
                    cache,
                    self,
                    objects,
                );
                let index = self.vertices.len();
                self.vertices.push(Slot { partial, full: Some(id) });
                cache.vertices.push(Link { full: id.index, partial: index });
                VertexHandle { index }
            },
        }
    }
}

impl Partials {
    /// The partial half-edge that is derived from the full half-edge `id`: the
    /// one that the cache records, or a new one.
    pub fn half_edge_from_full(
        &mut self,
        id: HalfEdgeId,
        cache: &mut FullToPartialCache,
        objects: &Objects,
    ) -> (h: HalfEdgeHandle)
        requires
            old(self)@.ready(objects@),
            old(cache)@.wf_in(old(self)@),
            room(old(self)@, 4),
            id.index < objects@.half_edges.len(),
        ensures
            (Derived { partials: final(self)@, cache: final(cache)@, result: h })
                == half_edge_derived(old(self)@, old(cache)@, objects@, id),
            final(self)@.ready(objects@),
            final(cache)@.wf_in(final(self)@),
            old(self)@.prefix_of(final(self)@),
            final(self)@.has_half_edge(h),
    {
        proof {
            lemma_lookup(cache@.half_edges, id.index, 0);
        }
        match find(&cache.half_edges, id.index) {
            Some(index) => HalfEdgeHandle { index },
            None => {
                let partial = PartialHalfEdge::from_full(
                    &objects.half_edges[id.index],
                    cache,
                    self,
                    objects,
                );
                let index = self.half_edges.len();
                self.half_edges.push(Slot { partial, full: Some(id) });
                cache.half_edges.push(Link { full: id.index, partial: index });
                HalfEdgeHandle { index }
            },
        }
    }
}

/// Every partial object that the links lead to remembers the full object
/// that its link records.
pub open spec fn links_faithful<P, F>(
    links: Seq<Link>,
    slots: Seq<Slot<P, F>>,
    id_of: spec_fn(usize) -> F,
) -> bool {
    forall|i: int|
        0 <= i < links.len() ==> slots[(#[trigger] links[i]).partial as int].full == Some(
            id_of(links[i].full),
        )
}

impl CacheView {
    /// Every partial object that the cache records remembers the full object
    /// that it was derived from: none of them was written since.
    pub open spec fn faithful_to(&self, partials: PartialsView) -> bool {
        &&& links_faithful(self.surfaces, partials.surfaces, |i: usize| SurfaceId { index: i })
        &&& links_faithful(self.curves, partials.curves, |i: usize| CurveId { index: i })
        &&& links_faithful(
            self.global_vertices,
            partials.global_vertices,
            |i: usize| GlobalVertexId { index: i },
        )
        &&& links_faithful(
            self.surface_vertices,
            partials.surface_vertices,
            |i: usize| SurfaceVertexId { index: i },
        )
        &&& links_faithful(self.vertices, partials.vertices, |i: usize| VertexId { index: i })
        &&& links_faithful(
            self.half_edges,
            partials.half_edges,
            |i: usize| HalfEdgeId { index: i },
        )
    }
}

/// The facts about deriving that the laws below rest on: the arena only grows,
/// the cache stays well-formed and faithful, and the result remembers the full
/// object that it was derived from.
pub open spec fn derives_well<T>(
    partials: PartialsView,
    cache: CacheView,
    d: Derived<T>,
) -> bool {
    &&& partials.prefix_of(d.partials)
    &&& d.cache.wf_in(d.partials)
    &&& d.cache.faithful_to(d.partials)
}

/// A partial surface that is derived from a full surface remembers it.
pub proof fn lemma_surface_derived(
    partials: PartialsView,
    cache: CacheView,
    objects: ObjectsView,
    id: SurfaceId,
)
    requires
        cache.wf_in(partials),
        cache.faithful_to(partials),
        room(partials, 0),
        id.index < objects.surfaces.len(),
    ensures
        ({
            let d = surface_derived(partials, cache, objects, id);
            &&& derives_well(partials, cache, d)
            &&& d.partials.has_surface(d.result)
            &&& d.partials.surfaces[d.result.index as int].full == Some(id)
            &&& lookup(d.cache.surfaces, id.index, 0) == Some(d.result.index)
            &&& d.partials.surfaces.len() <= partials.surfaces.len() + 1
            &&& d.partials.curves == partials.curves
            &&& d.partials.global_vertices == partials.global_vertices
            &&& d.partials.surface_vertices == partials.surface_vertices
            &&& d.partials.vertices == partials.vertices
            &&& d.cache.surface_vertices == cache.surface_vertices
        }),
{
    lemma_lookup(cache.surfaces, id.index, 0);
    let h = partials.surfaces.len() as usize;
    lemma_lookup_push(cache.surfaces, Link { full: id.index, partial: h }, id.index, 0);
}

/// A partial global vertex that is derived from a full one remembers it.
pub proof fn lemma_global_vertex_derived(
    partials: PartialsView,
    cache: CacheView,
    objects: ObjectsView,
    id: GlobalVertexId,
)
    requires
        cache.wf_in(partials),
        cache.faithful_to(partials),
        room(partials, 0),
        id.index < objects.global_vertices.len(),
    ensures
        ({
            let d = global_vertex_derived(partials, cache, objects, id);
            &&& derives_well(partials, cache, d)
            &&& d.partials.has_global_vertex(d.result)
            &&& d.partials.global_vertices[d.result.index as int].full == Some(id)
            &&& d.cache.surfaces == cache.surfaces
            &&& d.cache.surface_vertices == cache.surface_vertices
            &&& d.partials.surfaces == partials.surfaces
            &&& d.partials.curves == partials.curves
            &&& d.partials.surface_vertices == partials.surface_vertices
            &&& d.partials.vertices == partials.vertices
            &&& d.partials.global_vertices.len() <= partials.global_vertices.len() + 1
        }),
{
    lemma_lookup(cache.global_vertices, id.index, 0);
}

/// A partial curve that is derived from a full curve remembers it.
pub proof fn lemma_curve_derived(
    partials: PartialsView,
    cache: CacheView,
    objects: ObjectsView,
    id: CurveId,
)
    requires
        cache.wf_in(partials),
        cache.faithful_to(partials),
        room(partials, 0),
        objects.wf(),
        id.index < objects.curves.len(),
    ensures
        ({
            let d = curve_derived(partials, cache, objects, id);
            &&& derives_well(partials, cache, d)
            &&& d.partials.has_curve(d.result)
            &&& d.partials.curves[d.result.index as int].full == Some(id)
            &&& d.partials.surfaces.len() <= partials.surfaces.len() + 1
            &&& d.partials.curves.len() <= partials.curves.len() + 1
            &&& d.partials.global_vertices == partials.global_vertices
            &&& d.partials.surface_vertices == partials.surface_vertices
            &&& d.partials.vertices == partials.vertices
        }),
{
    lemma_lookup(cache.curves, id.index, 0);
    lemma_surface_derived(partials, cache, objects, objects.curves[id.index as int].surface);
}

/// A partial surface vertex that is derived from a full one remembers it.
pub proof fn lemma_surface_vertex_derived(
    partials: PartialsView,
    cache: CacheView,
    objects: ObjectsView,
    id: SurfaceVertexId,
)
    requires
        cache.wf_in(partials),
        cache.faithful_to(partials),
        room(partials, 1),
        objects.wf(),
        id.index < objects.surface_vertices.len(),
    ensures
        ({
            let d = surface_vertex_derived(partials, cache, objects, id);
            &&& derives_well(partials, cache, d)
            &&& d.partials.has_surface_vertex(d.result)
            &&& d.partials.surface_vertices[d.result.index as int].full == Some(id)
        }),
{
    lemma_lookup(cache.surface_vertices, id.index, 0);
    let full = objects.surface_vertices[id.index as int];
    lemma_surface_derived(partials, cache, objects, full.surface);
    let s = surface_derived(partials, cache, objects, full.surface);
    lemma_global_vertex_derived(s.partials, s.cache, objects, full.global_form);
}

/// A partial vertex that is derived from a full vertex remembers it.
pub proof fn lemma_vertex_derived(
    partials: PartialsView,
    cache: CacheView,
    objects: ObjectsView,
    id: VertexId,
)
    requires
        cache.wf_in(partials),
        cache.faithful_to(partials),
        room(partials, 2),
        objects.wf(),
        id.index < objects.vertices.len(),
    ensures
        ({
            let d = vertex_derived(partials, cache, objects, id);
            &&& derives_well(partials, cache, d)
            &&& d.partials.has_vertex(d.result)
            &&& d.partials.vertices[d.result.index as int].full == Some(id)
        }),
{
    lemma_lookup(cache.vertices, id.index, 0);
    let full = objects.vertices[id.index as int];
    lemma_curve_derived(partials, cache, objects, full.curve);
    let c = curve_derived(partials, cache, objects, full.curve);
    lemma_surface_vertex_derived(c.partials, c.cache, objects, full.surface_form);
}

/// Deriving a partial vertex from a full vertex and building it gives the
/// full vertex back, and leaves the store and the arena as they are; provided
/// that no partial object that the cache records was written since it was
/// derived.
pub proof fn lemma_vertex_round_trip(
    partials: PartialsView,
    cache: CacheView,
    objects: ObjectsView,
    id: VertexId,
    outcome: PartialsView,
)
    requires
        cache.wf_in(partials),
        cache.faithful_to(partials),
        room(partials, 2),
        objects.wf(),
        id.index < objects.vertices.len(),
    ensures
        ({
            let d = vertex_derived(partials, cache, objects, id);
            crate::partial::vertex::vertex_built(d.partials, objects, d.result, outcome)
                == (crate::partial::Built { partials: d.partials, objects, result: Ok(id) })
        }),
{
    reveal(crate::partial::vertex::vertex_built);
    lemma_vertex_derived(partials, cache, objects, id);
    let d = vertex_derived(partials, cache, objects, id);
    assert(d.partials.vertices[d.result.index as int].full == Some(id));
}

/// Deriving a partial surface vertex from a full one and building it gives
/// the full one back, and leaves the store and the arena as they are;
/// provided that no partial object that the cache records was written since
/// it was derived.
pub proof fn lemma_surface_vertex_round_trip(
    partials: PartialsView,
    cache: CacheView,
    objects: ObjectsView,
    id: SurfaceVertexId,
)
    requires
        cache.wf_in(partials),
        cache.faithful_to(partials),
        room(partials, 1),
        objects.wf(),
        id.index < objects.surface_vertices.len(),
    ensures
        ({
            let d = surface_vertex_derived(partials, cache, objects, id);
            crate::partial::vertex::surface_vertex_built(d.partials, objects, d.result)
                == (crate::partial::Built { partials: d.partials, objects, result: Ok(id) })
        }),
{
    reveal(crate::partial::vertex::surface_vertex_built);
    lemma_surface_vertex_derived(partials, cache, objects, id);
}

/// Deriving a partial global vertex from a full one and building it gives the
/// full one back, and leaves the store and the arena as they are; provided
/// that no partial object that the cache records was written since it was
/// derived.
pub proof fn lemma_global_vertex_round_trip(
    partials: PartialsView,
    cache: CacheView,
    objects: ObjectsView,
    id: GlobalVertexId,
)
    requires
        cache.wf_in(partials),
        cache.faithful_to(partials),
        room(partials, 0),
        id.index < objects.global_vertices.len(),
    ensures
        ({
            let d = global_vertex_derived(partials, cache, objects, id);
            crate::partial::vertex::global_vertex_built(d.partials, objects, d.result)
                == (crate::partial::Built { partials: d.partials, objects, result: Ok(id) })
        }),
{
    reveal(crate::partial::vertex::global_vertex_built);
    lemma_global_vertex_derived(partials, cache, objects, id);
}

/// Deriving a partial curve from a full curve and building it gives the full
/// curve back, and leaves the store and the arena as they are; provided that
/// no partial object that the cache records was written since it was derived.
pub proof fn lemma_curve_round_trip(
    partials: PartialsView,
    cache: CacheView,
    objects: ObjectsView,
    id: CurveId,
)
    requires
        cache.wf_in(partials),
        cache.faithful_to(partials),
        room(partials, 0),
        objects.wf(),
        id.index < objects.curves.len(),
    ensures
        ({
            let d = curve_derived(partials, cache, objects, id);
            crate::partial::curve::curve_built(d.partials, objects, d.result)
                == (crate::partial::Built { partials: d.partials, objects, result: Ok(id) })
        }),
{
    reveal(crate::partial::curve::curve_built);
    lemma_curve_derived(partials, cache, objects, id);
}

/// Deriving a partial surface from a full surface and building it gives the
/// full surface back, and leaves the store and the arena as they are;
/// provided that no partial object that the cache records was written since
/// it was derived.
pub proof fn lemma_surface_round_trip(
    partials: PartialsView,
    cache: CacheView,
    objects: ObjectsView,
    id: SurfaceId,
)
    requires
        cache.wf_in(partials),
        cache.faithful_to(partials),
        room(partials, 0),
        id.index < objects.surfaces.len(),
    ensures
        ({
            let d = surface_derived(partials, cache, objects, id);
            crate::partial::surface::surface_built(d.partials, objects, d.result)
                == (crate::partial::Built { partials: d.partials, objects, result: Ok(id) })
        }),
{
    reveal(crate::partial::surface::surface_built);
    lemma_surface_derived(partials, cache, objects, id);
}

/// Two full surface vertices in one surface give, when partial surface
/// vertices are derived from them one after the other, two partial surface
/// vertices in one partial surface: what the full objects share, the partial
/// objects share.
pub proof fn lemma_derived_share_surface(
    partials: PartialsView,
    cache: CacheView,
    objects: ObjectsView,
    a: SurfaceVertexId,
    b: SurfaceVertexId,
)
    requires
        cache.wf_in(partials),
        cache.faithful_to(partials),
        cache.is_empty(),
        room(partials, 3),
        objects.wf(),
        a.index < objects.surface_vertices.len(),
        b.index < objects.surface_vertices.len(),
        objects.surface_vertices[a.index as int].surface
            == objects.surface_vertices[b.index as int].surface,
    ensures
        ({
            let first = surface_vertex_derived(partials, cache, objects, a);
            let second = surface_vertex_derived(first.partials, first.cache, objects, b);
            second.partials.surface_vertex(first.result).surface == second.partials.surface_vertex(
                second.result,
            ).surface
        }),
{
    let shared = objects.surface_vertices[a.index as int].surface;
    let first = surface_vertex_derived(partials, cache, objects, a);
    lemma_surface_vertex_derived(partials, cache, objects, a);
    assert(lookup(cache.surface_vertices, a.index, 0).is_none());
    lemma_surface_derived(partials, cache, objects, shared);
    let s = surface_derived(partials, cache, objects, shared);
    lemma_global_vertex_derived(
        s.partials,
        s.cache,
        objects,
        objects.surface_vertices[a.index as int].global_form,
    );
    assert(first.cache.surfaces == s.cache.surfaces);
    assert(lookup(first.cache.surfaces, shared.index, 0) == Some(s.result.index));
    assert(first.partials.surface_vertex(first.result).surface == s.result);
    let second = surface_vertex_derived(first.partials, first.cache, objects, b);
    lemma_surface_vertex_derived(first.partials, first.cache, objects, b);
    lemma_lookup(first.cache.surface_vertices, b.index, 0);
    if lookup(first.cache.surface_vertices, b.index, 0).is_some() {
        assert(first.cache.surface_vertices.len() == 1);
        assert(second.result == first.result);
    } else {
        let again = surface_derived(first.partials, first.cache, objects, shared);
        assert(again.result == s.result);
        assert(second.partials.surface_vertex(second.result).surface == s.result);
        assert(second.partials.surface_vertices[first.result.index as int]
            == first.partials.surface_vertices[first.result.index as int]);
    }
}

/// A partial half-edge that is derived from a full half-edge remembers it.
pub proof fn lemma_half_edge_derived(
    partials: PartialsView,
    cache: CacheView,
    objects: ObjectsView,
    id: HalfEdgeId,
)
    requires
        cache.wf_in(partials),
        cache.faithful_to(partials),
        room(partials, 6),
        objects.wf(),
        id.index < objects.half_edges.len(),
    ensures
        ({
            let d = half_edge_derived(partials, cache, objects, id);
            &&& derives_well(partials, cache, d)
            &&& d.partials.has_half_edge(d.result)
            &&& d.partials.half_edges[d.result.index as int].full == Some(id)
        }),
{
    lemma_lookup(cache.half_edges, id.index, 0);
    let edge = objects.half_edges[id.index as int];
    lemma_vertex_derived(partials, cache, objects, edge.vertices[0]);
    let back = vertex_derived(partials, cache, objects, edge.vertices[0]);
    lemma_vertex_grows(partials, cache, objects, edge.vertices[0]);
    lemma_vertex_derived(back.partials, back.cache, objects, edge.vertices[1]);
    let front = vertex_derived(back.partials, back.cache, objects, edge.vertices[1]);
    lemma_vertex_grows(back.partials, back.cache, objects, edge.vertices[1]);
    crate::partial::lemma_prefix_grows(partials, back.partials, front.partials);
    lemma_global_vertex_derived(front.partials, front.cache, objects, edge.global_form[0]);
    let first = global_vertex_derived(front.partials, front.cache, objects, edge.global_form[0]);
    crate::partial::lemma_prefix_grows(partials, front.partials, first.partials);
    lemma_global_vertex_derived(first.partials, first.cache, objects, edge.global_form[1]);
    let second = global_vertex_derived(first.partials, first.cache, objects, edge.global_form[1]);
    crate::partial::lemma_prefix_grows(partials, first.partials, second.partials);
}

/// Deriving a partial vertex adds at most two surfaces and one place of each
/// other kind to the arena, and no half-edge.
pub proof fn lemma_vertex_grows(
    partials: PartialsView,
    cache: CacheView,
    objects: ObjectsView,
    id: VertexId,
)
    requires
        cache.wf_in(partials),
        cache.faithful_to(partials),
        room(partials, 2),
        objects.wf(),
        id.index < objects.vertices.len(),
    ensures
        ({
            let d = vertex_derived(partials, cache, objects, id);
            &&& d.partials.surfaces.len() <= partials.surfaces.len() + 2
            &&& d.partials.curves.len() <= partials.curves.len() + 1
            &&& d.partials.global_vertices.len() <= partials.global_vertices.len() + 1
            &&& d.partials.surface_vertices.len() <= partials.surface_vertices.len() + 1
            &&& d.partials.vertices.len() <= partials.vertices.len() + 1
            &&& d.partials.half_edges == partials.half_edges
            &&& d.cache.half_edges == cache.half_edges
        }),
{
    lemma_lookup(cache.vertices, id.index, 0);
    let full = objects.vertices[id.index as int];
    lemma_curve_derived(partials, cache, objects, full.curve);
    let c = curve_derived(partials, cache, objects, full.curve);
    lemma_surface_vertex_derived(c.partials, c.cache, objects, full.surface_form);
    let form = objects.surface_vertices[full.surface_form.index as int];
    lemma_surface_derived(c.partials, c.cache, objects, form.surface);
    let s = surface_derived(c.partials, c.cache, objects, form.surface);
    lemma_global_vertex_derived(s.partials, s.cache, objects, form.global_form);
    lemma_surface_derived(partials, cache, objects, objects.curves[full.curve.index as int].surface);
}

/// Deriving a partial half-edge from a full half-edge and building it gives
/// the full half-edge back, and leaves the store and the arena as they are;
/// provided that no partial object that the cache records was written since
/// it was derived.
pub proof fn lemma_half_edge_round_trip(
    partials: PartialsView,
    cache: CacheView,
    objects: ObjectsView,
    id: HalfEdgeId,
    outcome: PartialsView,
)
    requires
        cache.wf_in(partials),
        cache.faithful_to(partials),
        room(partials, 6),
        objects.wf(),
        id.index < objects.half_edges.len(),
    ensures
        ({
            let d = half_edge_derived(partials, cache, objects, id);
            crate::partial::edge::half_edge_built(d.partials, objects, d.result, outcome)
                == (crate::partial::Built { partials: d.partials, objects, result: Ok(id) })
        }),
{
    reveal(crate::partial::edge::half_edge_built);
    lemma_half_edge_derived(partials, cache, objects, id);
}

/// Two full half-edges that meet in a vertex give, when partial half-edges
/// are derived from them one after the other, two partial half-edges that
/// meet in one partial vertex: what the full objects share, the partial
/// objects share.
pub proof fn lemma_derived_share_vertex(
    partials: PartialsView,
    cache: CacheView,
    objects: ObjectsView,
    a: HalfEdgeId,
    b: HalfEdgeId,
)
    requires
        cache.wf_in(partials),
        cache.faithful_to(partials),
        cache.is_empty(),
        room(partials, 12),
        objects.wf(),
        a.index < objects.half_edges.len(),
        b.index < objects.half_edges.len(),
        a != b,
        objects.half_edges[a.index as int].vertices[1]
            == objects.half_edges[b.index as int].vertices[0],
    ensures
        ({
            let first = half_edge_derived(partials, cache, objects, a);
            let second = half_edge_derived(first.partials, first.cache, objects, b);
            second.partials.half_edge(first.result).vertices[1] == second.partials.half_edge(
                second.result,
            ).vertices[0]
        }),
{
    let ea = objects.half_edges[a.index as int];
    let eb = objects.half_edges[b.index as int];
    let shared = ea.vertices[1];
    // Deriving the first half-edge records the vertex in which the two meet.
    assert(lookup(cache.half_edges, a.index, 0).is_none());
    lemma_vertex_derived(partials, cache, objects, ea.vertices[0]);
    lemma_vertex_grows(partials, cache, objects, ea.vertices[0]);
    let back = vertex_derived(partials, cache, objects, ea.vertices[0]);
    lemma_vertex_derived(back.partials, back.cache, objects, shared);
    lemma_vertex_grows(back.partials, back.cache, objects, shared);
    let front = vertex_derived(back.partials, back.cache, objects, shared);
    lemma_vertex_recorded(back.partials, back.cache, objects, shared);
    lemma_global_vertex_derived(front.partials, front.cache, objects, ea.global_form[0]);
    let g0 = global_vertex_derived(front.partials, front.cache, objects, ea.global_form[0]);
    lemma_global_vertex_derived(g0.partials, g0.cache, objects, ea.global_form[1]);
    let g1 = global_vertex_derived(g0.partials, g0.cache, objects, ea.global_form[1]);
    assert(g0.cache.vertices == front.cache.vertices);
    assert(g1.cache.vertices == front.cache.vertices);
    let first = half_edge_derived(partials, cache, objects, a);
    assert(first.cache.vertices == front.cache.vertices);
    assert(first.partials.half_edge(first.result).vertices[1] == front.result);
    assert(first.cache.half_edges =~= seq![Link { full: a.index, partial: first.result.index }]);
    lemma_half_edge_derived(partials, cache, objects, a);
    // Deriving the second half-edge finds it.
    assert(lookup(first.cache.half_edges, b.index, 0).is_none()) by {
        lemma_lookup(first.cache.half_edges, b.index, 0);
    }
    let again = vertex_derived(first.partials, first.cache, objects, shared);
    assert(again.result == front.result);
    assert(again.partials == first.partials && again.cache == first.cache);
    let second = half_edge_derived(first.partials, first.cache, objects, b);
    assert(second.partials.half_edge(second.result).vertices[0] == front.result);
    lemma_half_edge_derived(first.partials, first.cache, objects, b);
    assert(second.partials.half_edges[first.result.index as int]
        == first.partials.half_edges[first.result.index as int]);
}

/// After a partial vertex was derived from a full vertex, the cache records
/// it for that vertex.
pub proof fn lemma_vertex_recorded(
    partials: PartialsView,
    cache: CacheView,
    objects: ObjectsView,
    id: VertexId,
)
    requires
        cache.wf_in(partials),
        room(partials, 2),
    ensures
        ({
            let d = vertex_derived(partials, cache, objects, id);
            lookup(d.cache.vertices, id.index, 0) == Some(d.result.index)
        }),
{
    lemma_lookup(cache.vertices, id.index, 0);
    let d = PartialVertex::derived(objects.vertices[id.index as int], partials, cache, objects);
    let h = d.partials.vertices.len() as usize;
    lemma_lookup_push(d.cache.vertices, Link { full: id.index, partial: h }, id.index, 0);
    let full = objects.vertices[id.index as int];
    let c = curve_derived(partials, cache, objects, full.curve);
    let s = surface_vertex_derived(c.partials, c.cache, objects, full.surface_form);
    assert(c.cache.vertices == cache.vertices);
    assert(s.cache.vertices == c.cache.vertices);
}

} // verus!
