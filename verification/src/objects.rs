//! Full objects and the store that owns them.
//!
//! A full object is immutable and refers to other full objects by their
//! identifier in the store.

use vstd::prelude::*;
use fj_interop::Color;
use crate::geometry::{GlobalPath, SurfaceGeometry, SurfacePath};
use crate::math::{all_same, scalar, scalar_of, Line, Point, Vector};

verus! {

/// Identifies a surface in the store.
#[derive(Clone, Copy, Debug, PartialEq, Eq, Structural)]
pub struct SurfaceId {
    pub index: usize,
}

/// Identifies a curve in the store.
#[derive(Clone, Copy, Debug, PartialEq, Eq, Structural)]
pub struct CurveId {
    pub index: usize,
}

/// Identifies a global vertex in the store.
#[derive(Clone, Copy, Debug, PartialEq, Eq, Structural)]
pub struct GlobalVertexId {
    pub index: usize,
}

/// Identifies a surface vertex in the store.
#[derive(Clone, Copy, Debug, PartialEq, Eq, Structural)]
pub struct SurfaceVertexId {
    pub index: usize,
}

/// Identifies a vertex in the store.
#[derive(Clone, Copy, Debug, PartialEq, Eq, Structural)]
pub struct VertexId {
    pub index: usize,
}

/// Identifies a half-edge in the store.
#[derive(Clone, Copy, Debug, PartialEq, Eq, Structural)]
pub struct HalfEdgeId {
    pub index: usize,
}

/// A surface.
#[derive(Clone, Copy, Debug, PartialEq, Eq)]
pub struct Surface {
    pub geometry: SurfaceGeometry,
}

/// A curve on a surface.
#[derive(Clone, Copy, Debug, PartialEq, Eq)]
pub struct Curve {
    pub path: SurfacePath,
    pub surface: SurfaceId,
}

/// A vertex in space.
#[derive(Clone, Copy, Debug, PartialEq, Eq)]
pub struct GlobalVertex {
    pub position: Point<3>,
}

/// A vertex on a surface.
#[derive(Clone, Copy, Debug, PartialEq, Eq)]
pub struct SurfaceVertex {
    pub position: Point<2>,
    pub surface: SurfaceId,
    pub global_form: GlobalVertexId,
}

/// A vertex on a curve.
#[derive(Clone, Copy, Debug, PartialEq, Eq)]
pub struct Vertex {
    pub position: Point<1>,
    pub curve: CurveId,
    pub surface_form: SurfaceVertexId,
}

/// A directed edge between a back and a front vertex, with the global vertices
/// that the two stand for.
#[derive(Clone, Copy, Debug, PartialEq, Eq)]
pub struct HalfEdge {
    pub vertices: [VertexId; 2],
    pub global_form: [GlobalVertexId; 2],
}

/// A cycle: half-edges that form a closed chain.
#[derive(Clone, Debug, PartialEq, Eq)]
pub struct Cycle {
    pub half_edges: Vec<HalfEdgeId>,
}

/// A face: the part of its surface inside its exterior cycle and outside its
/// interior cycles.
#[derive(Clone, Debug, PartialEq, Eq)]
pub struct Face {
    pub surface: Option<SurfaceId>,
    pub exterior: Cycle,
    pub interiors: Vec<Cycle>,
    pub color: Option<Color>,
}

/// A sketch: a collection of faces.
#[derive(Clone, Debug, PartialEq, Eq)]
pub struct Sketch {
    pub faces: Vec<Face>,
}

/// The contents of a face.
pub struct FaceView {
    pub surface: Option<SurfaceId>,
    pub exterior: Seq<HalfEdgeId>,
    pub interiors: Seq<Seq<HalfEdgeId>>,
    pub color: Option<Color>,
}

impl View for Cycle {
    type V = Seq<HalfEdgeId>;

    open spec fn view(&self) -> Seq<HalfEdgeId> {
        self.half_edges@
    }
}

impl View for Face {
    type V = FaceView;

    open spec fn view(&self) -> FaceView {
        FaceView {
            surface: self.surface,
            exterior: self.exterior@,
            interiors: Seq::new(self.interiors@.len(), |i: int| self.interiors@[i]@),
            color: self.color,
        }
    }
}

impl View for Sketch {
    type V = Seq<FaceView>;

    open spec fn view(&self) -> Seq<FaceView> {
        Seq::new(self.faces@.len(), |i: int| self.faces@[i]@)
    }
}

/// What the store needs of the objects it owns: a test for whether two of them
/// have the same content.
pub trait Stored: Sized {
    /// The two objects have the same content.
    spec fn matches(&self, other: &Self) -> bool;

    /// Whether the two objects have the same content.
    fn is_match(&self, other: &Self) -> (r: bool)
        ensures
            r == self.matches(other),
    ;
}

impl Stored for Surface {
    open spec fn matches(&self, other: &Self) -> bool {
        self.geometry.matches(other.geometry)
    }

    fn is_match(&self, other: &Self) -> (r: bool) {
        self.geometry.is_match(&other.geometry)
    }
}

impl Stored for Curve {
    open spec fn matches(&self, other: &Self) -> bool {
        self.path.matches(other.path) && self.surface == other.surface
    }

    fn is_match(&self, other: &Self) -> (r: bool) {
        self.path.is_match(&other.path) && self.surface == other.surface
    }
}

impl Stored for GlobalVertex {
    open spec fn matches(&self, other: &Self) -> bool {
        all_same(self.position@, other.position@)
    }

    fn is_match(&self, other: &Self) -> (r: bool) {
        self.position.same_as(&other.position)
    }
}

impl Stored for SurfaceVertex {
    open spec fn matches(&self, other: &Self) -> bool {
        &&& all_same(self.position@, other.position@)
        &&& self.surface == other.surface
        &&& self.global_form == other.global_form
    }

    fn is_match(&self, other: &Self) -> (r: bool) {
        self.position.same_as(&other.position) && self.surface == other.surface
            && self.global_form == other.global_form
    }
}

impl Stored for Vertex {
    open spec fn matches(&self, other: &Self) -> bool {
        &&& all_same(self.position@, other.position@)
        &&& self.curve == other.curve
        &&& self.surface_form == other.surface_form
    }

    fn is_match(&self, other: &Self) -> (r: bool) {
        self.position.same_as(&other.position) && self.curve == other.curve && self.surface_form
            == other.surface_form
    }
}

impl Stored for HalfEdge {
    open spec fn matches(&self, other: &Self) -> bool {
        &&& self.vertices[0] == other.vertices[0]
        &&& self.vertices[1] == other.vertices[1]
        &&& self.global_form[0] == other.global_form[0]
        &&& self.global_form[1] == other.global_form[1]
    }

    fn is_match(&self, other: &Self) -> (r: bool) {
        self.vertices[0] == other.vertices[0] && self.vertices[1] == other.vertices[1]
            && self.global_form[0] == other.global_form[0] && self.global_form[1]
            == other.global_form[1]
    }
}

/// The place of the first object at or after `from` that has the same content
/// as `item`, or the length of `items` if there is none.
pub open spec fn first_match<T: Stored>(items: Seq<T>, item: T, from: int) -> int
    decreases items.len() - from,
{
    if from < 0 || from >= items.len() {
        items.len() as int
    } else if items[from].matches(&item) {
        from
    } else {
        first_match(items, item, from + 1)
    }
}

/// The place that `item` has in the store: that of the first object with the
/// same content, or a new place at the end.
pub open spec fn place_of<T: Stored>(items: Seq<T>, item: T) -> int {
    first_match(items, item, 0)
}

/// The objects of the store after `item` was put into it: unchanged if an
/// object with the same content was there, else with `item` at the end.
pub open spec fn stored<T: Stored>(items: Seq<T>, item: T) -> Seq<T> {
    if place_of(items, item) < items.len() {
        items
    } else {
        items.push(item)
    }
}

/// Where `first_match` points, there is a match, and there is none before.
pub proof fn lemma_first_match<T: Stored>(items: Seq<T>, item: T, from: int)
    requires
        0 <= from <= items.len(),
    ensures
        from <= first_match(items, item, from) <= items.len(),
        first_match(items, item, from) < items.len() ==> items[first_match(
            items,
            item,
            from,
        )].matches(&item),
        forall|i: int|
            from <= i < first_match(items, item, from) ==> !(#[trigger] items[i]).matches(&item),
    decreases items.len() - from,
{
    if from < items.len() && !items[from].matches(&item) {
        lemma_first_match(items, item, from + 1);
    }
}

/// What is stored for `item` has the same content as `item`, or is `item`; and
/// what was stored before is stored still, in its place.
pub proof fn lemma_stored<T: Stored>(items: Seq<T>, item: T)
    ensures
        0 <= place_of(items, item) < stored(items, item).len(),
        stored(items, item)[place_of(items, item)] == item || stored(items, item)[place_of(
            items,
            item,
        )].matches(&item),
        items.len() <= stored(items, item).len(),
        forall|i: int| 0 <= i < items.len() ==> #[trigger] stored(items, item)[i] == items[i],
{
    lemma_first_match(items, item, 0);
}

/// Puts `item` into `items` unless an object with the same content is there,
/// and returns its place.
pub fn intern<T: Stored>(items: &mut Vec<T>, item: T) -> (index: usize)
    ensures
        index == place_of(old(items)@, item),
        final(items)@ == stored(old(items)@, item),
        index < final(items)@.len(),
        final(items)@[index as int].matches(&item) || final(items)@[index as int] == item,
        old(items)@.len() <= final(items)@.len(),
        forall|i: int| 0 <= i < old(items)@.len() ==> #[trigger] final(items)@[i] == old(items)@[i],
{
    let n = items.len();
    let mut i: usize = 0;
    while i < n
        invariant
            n == items@.len(),
            items@ == old(items)@,
            0 <= i <= n,
            first_match(items@, item, 0) == first_match(items@, item, i as int),
        decreases n - i,
    {
        if items[i].is_match(&item) {
            proof {
                lemma_first_match(items@, item, i as int);
            }
            return i;
        }
        i = i + 1;
    }
    items.push(item);
    n
}

/// The store of full objects.
pub struct Objects {
    pub surfaces: Vec<Surface>,
    pub curves: Vec<Curve>,
    pub global_vertices: Vec<GlobalVertex>,
    pub surface_vertices: Vec<SurfaceVertex>,
    pub vertices: Vec<Vertex>,
    pub half_edges: Vec<HalfEdge>,
}

/// The contents of a store.
pub struct ObjectsView {
    pub surfaces: Seq<Surface>,
    pub curves: Seq<Curve>,
    pub global_vertices: Seq<GlobalVertex>,
    pub surface_vertices: Seq<SurfaceVertex>,
    pub vertices: Seq<Vertex>,
    pub half_edges: Seq<HalfEdge>,
}

impl View for Objects {
    type V = ObjectsView;

    open spec fn view(&self) -> ObjectsView {
        ObjectsView {
            surfaces: self.surfaces@,
            curves: self.curves@,
            global_vertices: self.global_vertices@,
            surface_vertices: self.surface_vertices@,
            vertices: self.vertices@,
            half_edges: self.half_edges@,
        }
    }
}

impl ObjectsView {
    /// Every identifier that an object of the store holds refers to an object
    /// of the store.
    pub open spec fn wf(&self) -> bool {
        &&& forall|i: int|
            0 <= i < self.curves.len() ==> (#[trigger] self.curves[i]).surface.index
                < self.surfaces.len()
        &&& forall|i: int|
            0 <= i < self.surface_vertices.len() ==> {
                &&& (#[trigger] self.surface_vertices[i]).surface.index < self.surfaces.len()
                &&& self.surface_vertices[i].global_form.index < self.global_vertices.len()
            }
        &&& forall|i: int|
            0 <= i < self.vertices.len() ==> {
                &&& (#[trigger] self.vertices[i]).curve.index < self.curves.len()
                &&& self.vertices[i].surface_form.index < self.surface_vertices.len()
            }
        &&& forall|i: int|
            0 <= i < self.half_edges.len() ==> {
                &&& (#[trigger] self.half_edges[i]).vertices[0].index < self.vertices.len()
                &&& self.half_edges[i].vertices[1].index < self.vertices.len()
                &&& self.half_edges[i].global_form[0].index < self.global_vertices.len()
                &&& self.half_edges[i].global_form[1].index < self.global_vertices.len()
            }
    }

    /// The store has room for one more object of each kind: no place of it
    /// will be beyond what the machine can count.
    pub open spec fn has_room(&self) -> bool {
        &&& self.surfaces.len() + 1 < usize::MAX
        &&& self.curves.len() < usize::MAX
        &&& self.global_vertices.len() < usize::MAX
        &&& self.surface_vertices.len() < usize::MAX
        &&& self.vertices.len() < usize::MAX
    }

    /// The store `later` holds, at the same places, all that this one holds.
    pub open spec fn prefix_of(&self, later: ObjectsView) -> bool {
        &&& self.surfaces.len() <= later.surfaces.len()
        &&& self.curves.len() <= later.curves.len()
        &&& self.global_vertices.len() <= later.global_vertices.len()
        &&& self.surface_vertices.len() <= later.surface_vertices.len()
        &&& self.vertices.len() <= later.vertices.len()
        &&& self.half_edges.len() <= later.half_edges.len()
        &&& forall|i: int| 0 <= i < self.surfaces.len() ==> #[trigger] later.surfaces[i] == self.surfaces[i]
        &&& forall|i: int| 0 <= i < self.curves.len() ==> #[trigger] later.curves[i] == self.curves[i]
        &&& forall|i: int|
            0 <= i < self.global_vertices.len() ==> #[trigger] later.global_vertices[i]
                == self.global_vertices[i]
        &&& forall|i: int|
            0 <= i < self.surface_vertices.len() ==> #[trigger] later.surface_vertices[i]
                == self.surface_vertices[i]
        &&& forall|i: int| 0 <= i < self.vertices.len() ==> #[trigger] later.vertices[i] == self.vertices[i]
        &&& forall|i: int|
            0 <= i < self.half_edges.len() ==> #[trigger] later.half_edges[i] == self.half_edges[i]
    }

    pub open spec fn with_surface(self, item: Surface) -> ObjectsView {
        ObjectsView { surfaces: stored(self.surfaces, item), ..self }
    }

    pub open spec fn with_curve(self, item: Curve) -> ObjectsView {
        ObjectsView { curves: stored(self.curves, item), ..self }
    }

    pub open spec fn with_global_vertex(self, item: GlobalVertex) -> ObjectsView {
        ObjectsView { global_vertices: stored(self.global_vertices, item), ..self }
    }

    pub open spec fn with_surface_vertex(self, item: SurfaceVertex) -> ObjectsView {
        ObjectsView { surface_vertices: stored(self.surface_vertices, item), ..self }
    }

    pub open spec fn with_vertex(self, item: Vertex) -> ObjectsView {
        ObjectsView { vertices: stored(self.vertices, item), ..self }
    }

    pub open spec fn with_half_edge(self, item: HalfEdge) -> ObjectsView {
        ObjectsView { half_edges: stored(self.half_edges, item), ..self }
    }
}

/// The plane through the origin that the first two axes of space span: its
/// `u` axis is the line from the origin along the first axis, its `v` axis the
/// unit vector of the second.
pub open spec fn xy_plane() -> Surface {
    Surface {
        geometry: SurfaceGeometry {
            u: GlobalPath::Line(
                Line {
                    origin: Point { coords: [scalar_of(0), scalar_of(0), scalar_of(0)] },
                    direction: Vector { components: [scalar_of(1), scalar_of(0), scalar_of(0)] },
                },
            ),
            v: Vector { components: [scalar_of(0), scalar_of(1), scalar_of(0)] },
        },
    }
}

impl Objects {
    /// Whether every identifier that an object of the store holds refers to
    /// an object of the store.
    pub fn is_well_formed(&self) -> (r: bool)
        ensures
            r == self@.wf(),
    {
        let mut i: usize = 0;
        while i < self.curves.len()
            invariant
                0 <= i <= self.curves@.len(),
                forall|k: int|
                    0 <= k < i ==> (#[trigger] self.curves@[k]).surface.index
                        < self.surfaces@.len(),
            decreases self.curves@.len() - i,
        {
            if self.curves[i].surface.index >= self.surfaces.len() {
                assert(self@.curves[i as int].surface.index >= self@.surfaces.len());
                return false;
            }
            i = i + 1;
        }
        let mut i: usize = 0;
        while i < self.surface_vertices.len()
            invariant
                0 <= i <= self.surface_vertices@.len(),
                forall|k: int|
                    0 <= k < i ==> {
                        &&& (#[trigger] self.surface_vertices@[k]).surface.index
                            < self.surfaces@.len()
                        &&& self.surface_vertices@[k].global_form.index
                            < self.global_vertices@.len()
                    },
            decreases self.surface_vertices@.len() - i,
        {
            let vertex = self.surface_vertices[i];
            if vertex.surface.index >= self.surfaces.len() || vertex.global_form.index
                >= self.global_vertices.len() {
                assert(self@.surface_vertices[i as int] == vertex);
                return false;
            }
            i = i + 1;
        }
        let mut i: usize = 0;
        while i < self.vertices.len()
            invariant
                0 <= i <= self.vertices@.len(),
                forall|k: int|
                    0 <= k < i ==> {
                        &&& (#[trigger] self.vertices@[k]).curve.index < self.curves@.len()
                        &&& self.vertices@[k].surface_form.index < self.surface_vertices@.len()
                    },
            decreases self.vertices@.len() - i,
        {
            let vertex = self.vertices[i];
            if vertex.curve.index >= self.curves.len() || vertex.surface_form.index
                >= self.surface_vertices.len() {
                assert(self@.vertices[i as int] == vertex);
                return false;
            }
            i = i + 1;
        }
        let mut i: usize = 0;
        while i < self.half_edges.len()
            invariant
                0 <= i <= self.half_edges@.len(),
                forall|k: int|
                    0 <= k < i ==> {
                        &&& (#[trigger] self.half_edges@[k]).vertices[0].index
                            < self.vertices@.len()
                        &&& self.half_edges@[k].vertices[1].index < self.vertices@.len()
                        &&& self.half_edges@[k].global_form[0].index
                            < self.global_vertices@.len()
                        &&& self.half_edges@[k].global_form[1].index
                            < self.global_vertices@.len()
                    },
            decreases self.half_edges@.len() - i,
        {
            let edge = self.half_edges[i];
            if edge.vertices[0].index >= self.vertices.len() || edge.vertices[1].index
                >= self.vertices.len() || edge.global_form[0].index >= self.global_vertices.len()
                || edge.global_form[1].index >= self.global_vertices.len() {
                assert(self@.half_edges[i as int] == edge);
                return false;
            }
            i = i + 1;
        }
        true
    }

    /// The plane that the first two axes span, which is put into the store
    /// if it is not there.
    pub fn xy_plane(&mut self) -> (id: SurfaceId)
        ensures
            id.index == place_of(old(self)@.surfaces, xy_plane()),
            final(self)@ == old(self)@.with_surface(xy_plane()),
            id.index < final(self)@.surfaces.len(),
            old(self)@.prefix_of(final(self)@),
            old(self)@.wf() ==> final(self)@.wf(),
    {
        let zero = scalar(0);
        let one = scalar(1);
        let plane = Surface {
            geometry: SurfaceGeometry {
                u: GlobalPath::Line(
                    Line {
                        origin: Point { coords: [zero, zero, zero] },
                        direction: Vector { components: [one, zero, zero] },
                    },
                ),
                v: Vector { components: [zero, one, zero] },
            },
        };
        assert(plane.geometry.u.line().origin.coords =~= xy_plane().geometry.u.line().origin.coords);
        assert(plane.geometry.u.line().direction.components
            =~= xy_plane().geometry.u.line().direction.components);
        assert(plane.geometry.v.components =~= xy_plane().geometry.v.components);
        assert(plane == xy_plane());
        self.insert_surface(plane)
    }

    /// A store without objects.
    pub fn new() -> (r: Objects)
        ensures
            r@.wf(),
            r@.surfaces.len() == 0,
            r@.curves.len() == 0,
            r@.global_vertices.len() == 0,
            r@.surface_vertices.len() == 0,
            r@.vertices.len() == 0,
            r@.half_edges.len() == 0,
    {
        Objects {
            surfaces: Vec::new(),
            curves: Vec::new(),
            global_vertices: Vec::new(),
            surface_vertices: Vec::new(),
            vertices: Vec::new(),
            half_edges: Vec::new(),
        }
    }

    /// Puts a surface into the store, unless one with the same content is
    /// there, and returns its identifier.
    pub fn insert_surface(&mut self, item: Surface) -> (id: SurfaceId)
        ensures
            id.index == place_of(old(self)@.surfaces, item),
            final(self)@ == old(self)@.with_surface(item),
            id.index < final(self)@.surfaces.len(),
            old(self)@.prefix_of(final(self)@),
            old(self)@.wf() ==> final(self)@.wf(),
    {
        SurfaceId { index: intern(&mut self.surfaces, item) }
    }

    /// Puts a curve into the store, unless one with the same content is
    /// there, and returns its identifier.
    pub fn insert_curve(&mut self, item: Curve) -> (id: CurveId)
        ensures
            id.index == place_of(old(self)@.curves, item),
            final(self)@ == old(self)@.with_curve(item),
            id.index < final(self)@.curves.len(),
            old(self)@.prefix_of(final(self)@),
            old(self)@.wf() && item.surface.index < old(self)@.surfaces.len() ==> final(self)@.wf(),
    {
        let ghost before = self.curves@;
        let index = intern(&mut self.curves, item);
        proof {
            lemma_first_match(before, item, 0);
        }
        CurveId { index }
    }

    /// Puts a global vertex into the store, unless one with the same content
    /// is there, and returns its identifier.
    pub fn insert_global_vertex(&mut self, item: GlobalVertex) -> (id: GlobalVertexId)
        ensures
            id.index == place_of(old(self)@.global_vertices, item),
            final(self)@ == old(self)@.with_global_vertex(item),
            id.index < final(self)@.global_vertices.len(),
            old(self)@.prefix_of(final(self)@),
            old(self)@.wf() ==> final(self)@.wf(),
    {
        GlobalVertexId { index: intern(&mut self.global_vertices, item) }
    }

    /// Puts a surface vertex into the store, unless one with the same content
    /// is there, and returns its identifier.
    pub fn insert_surface_vertex(&mut self, item: SurfaceVertex) -> (id: SurfaceVertexId)
        ensures
            id.index == place_of(old(self)@.surface_vertices, item),
            final(self)@ == old(self)@.with_surface_vertex(item),
            id.index < final(self)@.surface_vertices.len(),
            old(self)@.prefix_of(final(self)@),
            old(self)@.wf() && item.surface.index < old(self)@.surfaces.len()
                && item.global_form.index < old(self)@.global_vertices.len() ==> final(self)@.wf(),
    {
        SurfaceVertexId { index: intern(&mut self.surface_vertices, item) }
    }

    /// Puts a vertex into the store, unless one with the same content is
    /// there, and returns its identifier.
    pub fn insert_vertex(&mut self, item: Vertex) -> (id: VertexId)
        ensures
            id.index == place_of(old(self)@.vertices, item),
            final(self)@ == old(self)@.with_vertex(item),
            id.index < final(self)@.vertices.len(),
            old(self)@.prefix_of(final(self)@),
            old(self)@.wf() && item.curve.index < old(self)@.curves.len()
                && item.surface_form.index < old(self)@.surface_vertices.len() ==> final(self)@.wf(),
    {
        VertexId { index: intern(&mut self.vertices, item) }
    }

    /// Puts a half-edge into the store, unless one with the same content is
    /// there, and returns its identifier.
    pub fn insert_half_edge(&mut self, item: HalfEdge) -> (id: HalfEdgeId)
        ensures
            id.index == place_of(old(self)@.half_edges, item),
            final(self)@ == old(self)@.with_half_edge(item),
            id.index < final(self)@.half_edges.len(),
            old(self)@.prefix_of(final(self)@),
            old(self)@.wf() && item.vertices[0].index < old(self)@.vertices.len()
                && item.vertices[1].index < old(self)@.vertices.len() && item.global_form[0].index
                < old(self)@.global_vertices.len() && item.global_form[1].index < old(
                self,
            )@.global_vertices.len() ==> final(self)@.wf(),
    {
        HalfEdgeId { index: intern(&mut self.half_edges, item) }
    }
}

/// What a store holds stays in its place over any number of insertions.
pub proof fn lemma_prefix_transitive(a: ObjectsView, b: ObjectsView, c: ObjectsView)
    requires
        a.prefix_of(b),
        b.prefix_of(c),
    ensures
        a.prefix_of(c),
{
    assert forall|i: int| 0 <= i < a.surfaces.len() implies #[trigger] c.surfaces[i]
        == a.surfaces[i] by {
        assert(b.surfaces[i] == a.surfaces[i]);
    }
    assert forall|i: int| 0 <= i < a.curves.len() implies #[trigger] c.curves[i]
        == a.curves[i] by {
        assert(b.curves[i] == a.curves[i]);
    }
    assert forall|i: int| 0 <= i < a.global_vertices.len() implies #[trigger] c.global_vertices[i]
        == a.global_vertices[i] by {
        assert(b.global_vertices[i] == a.global_vertices[i]);
    }
    assert forall|i: int| 0 <= i < a.surface_vertices.len() implies #[trigger] c.surface_vertices[i]
        == a.surface_vertices[i] by {
        assert(b.surface_vertices[i] == a.surface_vertices[i]);
    }
    assert forall|i: int| 0 <= i < a.vertices.len() implies #[trigger] c.vertices[i]
        == a.vertices[i] by {
        assert(b.vertices[i] == a.vertices[i]);
    }
    assert forall|i: int| 0 <= i < a.half_edges.len() implies #[trigger] c.half_edges[i]
        == a.half_edges[i] by {
        assert(b.half_edges[i] == a.half_edges[i]);
    }
}

} // verus!
