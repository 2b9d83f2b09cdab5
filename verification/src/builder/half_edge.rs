//! Building half-edges.

use vstd::prelude::*;
use crate::geometry::SurfacePath;
use crate::interop::zip_pairs;
use fj_math::Scalar;
use crate::math::{difference, full_turn, is_full_turn, scalar, scalar_of, Line, Point};
use crate::partial::vertex::{PartialGlobalVertex, PartialSurfaceVertex};
use crate::partial::curve::PartialCurve;
use crate::partial::edge::PartialHalfEdge;
use crate::partial::vertex::PartialVertex;
use crate::partial::{
    CurveHandle, GlobalVertexHandle, HalfEdgeHandle, Partials, PartialsView, SurfaceHandle,
    SurfaceVertexHandle, VertexHandle,
};

verus! {

/// The path is the line segment from `a` to `b`.
pub open spec fn is_segment(path: SurfacePath, a: Point<2>, b: Point<2>) -> bool {
    path is Line && path.line().origin == a && path.line().direction@ == difference(b@, a@)
}

/// The arena holds a line segment from the surface vertex `back` to the
/// surface vertex `front`: at `cv` its curve in `surface`, whose path is the
/// line from the position of `back` to that of `front`; at `vx` its back
/// vertex, at curve position 0 and with `back` as its surface form; at
/// `vx + 1` its front vertex, at curve position 1 and with `front` as its
/// surface form; and at `he` the half-edge between the two, whose global form
/// holds the global forms of `back` and `front`. Nothing was built from any of
/// them.
#[verifier::opaque]
pub open spec fn segment_at(
    after: PartialsView,
    cv: int,
    vx: int,
    he: int,
    surface: SurfaceHandle,
    back: SurfaceVertexHandle,
    front: SurfaceVertexHandle,
) -> bool {
    let curve = after.curves[cv];
    let v0 = after.vertices[vx];
    let v1 = after.vertices[vx + 1];
    let edge = after.half_edges[he];
    &&& after.surface_vertex(back).position.is_some()
    &&& after.surface_vertex(front).position.is_some()
    &&& curve.full.is_none()
    &&& curve.partial.surface == surface
    &&& curve.partial.path.is_some()
    &&& is_segment(
        curve.partial.path.unwrap(),
        after.surface_vertex(back).position.unwrap(),
        after.surface_vertex(front).position.unwrap(),
    )
    &&& v0.full.is_none()
    &&& v0.partial.position.is_some()
    &&& v0.partial.position.unwrap()@ == seq![scalar_of(0)]
    &&& v0.partial.curve.index == cv
    &&& v0.partial.surface_form == back
    &&& v1.full.is_none()
    &&& v1.partial.position.is_some()
    &&& v1.partial.position.unwrap()@ == seq![scalar_of(1)]
    &&& v1.partial.curve.index == cv
    &&& v1.partial.surface_form == front
    &&& edge.full.is_none()
    &&& edge.partial.vertices[0].index == vx
    &&& edge.partial.vertices[1].index == vx + 1
    &&& edge.partial.global_form[0] == after.surface_vertex(back).global_form
    &&& edge.partial.global_form[1] == after.surface_vertex(front).global_form
}

/// The positions of the two surface vertices are known and span a line.
pub open spec fn can_connect(
    partials: PartialsView,
    back: SurfaceVertexHandle,
    front: SurfaceVertexHandle,
) -> bool {
    &&& partials.has_surface_vertex(back)
    &&& partials.has_surface_vertex(front)
    &&& partials.surface_vertex(back).position.is_some()
    &&& partials.surface_vertex(front).position.is_some()
    &&& Line::<2>::spanned_by(
        partials.surface_vertex(back).position.unwrap(),
        partials.surface_vertex(front).position.unwrap(),
    )
}

/// Whether a line segment can be made between the two surface vertices.
pub fn check_can_connect(
    partials: &Partials,
    back: SurfaceVertexHandle,
    front: SurfaceVertexHandle,
) -> (r: bool)
    ensures
        r == can_connect(partials@, back, front),
{
    if back.index < partials.surface_vertices.len() && front.index
        < partials.surface_vertices.len() {
        let a = partials.read_surface_vertex(back).position;
        let b = partials.read_surface_vertex(front).position;
        match (a, b) {
            (Some(a), Some(b)) => Line::spans(&a, &b),
            _ => false,
        }
    } else {
        false
    }
}

/// Makes a half-edge that is a line segment from the surface vertex `back` to
/// the surface vertex `front`, on a new curve in `surface`.
///
/// The arena gains one curve, two vertices and one half-edge, and nothing
/// else changes.
pub fn line_segment_between(
    partials: &mut Partials,
    surface: SurfaceHandle,
    back: SurfaceVertexHandle,
    front: SurfaceVertexHandle,
) -> (h: HalfEdgeHandle)
    requires
        old(partials)@.wf(),
        old(partials)@.has_surface(surface),
        can_connect(old(partials)@, back, front),
    ensures
        final(partials)@.wf(),
        old(partials)@.prefix_of(final(partials)@),
        final(partials)@.surfaces == old(partials)@.surfaces,
        final(partials)@.global_vertices == old(partials)@.global_vertices,
        final(partials)@.surface_vertices == old(partials)@.surface_vertices,
        final(partials)@.curves.len() == old(partials)@.curves.len() + 1,
        final(partials)@.vertices.len() == old(partials)@.vertices.len() + 2,
        final(partials)@.half_edges.len() == old(partials)@.half_edges.len() + 1,
        h.index == old(partials)@.half_edges.len(),
        final(partials)@.keeps_built(old(partials)@),
        segment_at(
            final(partials)@,
            old(partials)@.curves.len() as int,
            old(partials)@.vertices.len() as int,
            old(partials)@.half_edges.len() as int,
            surface,
            back,
            front,
        ),
{
    reveal(segment_at);
    let back_form = partials.read_surface_vertex(back);
    let front_form = partials.read_surface_vertex(front);
    let a = back_form.position.unwrap();
    let b = front_form.position.unwrap();
    let (path, coords) = SurfacePath::line_from_points(&a, &b);
    let curve = partials.insert_curve(PartialCurve { path: Some(path), surface });
    let ends = zip_pairs(coords, [back, front]);
    let v0 = partials.insert_vertex(
        PartialVertex { position: Some(ends[0].0), curve, surface_form: ends[0].1 },
    );
    let v1 = partials.insert_vertex(
        PartialVertex { position: Some(ends[1].0), curve, surface_form: ends[1].1 },
    );
    partials.insert_half_edge(
        PartialHalfEdge {
            vertices: [v0, v1],
            global_form: [back_form.global_form, front_form.global_form],
        },
    )
}

/// The curve of a half-edge: the curve of its back vertex.
pub open spec fn curve_of(partials: PartialsView, h: HalfEdgeHandle) -> CurveHandle {
    partials.vertex(partials.half_edge(h).vertices[0]).curve
}

/// The global vertex that the surface form of a vertex stands for.
pub open spec fn global_form_of(partials: PartialsView, v: VertexHandle) -> GlobalVertexHandle {
    partials.surface_vertex(partials.vertex(v).surface_form).global_form
}

/// The arena after the global form of the half-edge `h` was inferred: the
/// global form of `h` holds the global vertices that the surface forms of its
/// two vertices stand for.
pub open spec fn global_form_inferred(partials: PartialsView, h: HalfEdgeHandle) -> PartialsView {
    let edge = partials.half_edge(h);
    partials.set_half_edge(
        h,
        PartialHalfEdge {
            vertices: edge.vertices,
            global_form: [
                global_form_of(partials, edge.vertices[0]),
                global_form_of(partials, edge.vertices[1]),
            ],
        },
    )
}

/// Sets the global form of the half-edge to the global vertices that the
/// surface forms of its two vertices stand for.
pub fn infer_global_form(partials: &mut Partials, h: HalfEdgeHandle)
    requires
        old(partials)@.wf(),
        old(partials)@.has_half_edge(h),
    ensures
        final(partials)@.wf(),
        final(partials)@ == global_form_inferred(old(partials)@, h),
        final(partials)@.keeps_built(old(partials)@),
{
    let edge = partials.read_half_edge(h);
    let back = partials.read_vertex(edge.vertices[0]);
    let front = partials.read_vertex(edge.vertices[1]);
    let g0 = partials.read_surface_vertex(back.surface_form).global_form;
    let g1 = partials.read_surface_vertex(front.surface_form).global_form;
    partials.write_half_edge(h, PartialHalfEdge { vertices: edge.vertices, global_form: [g0, g1] });
}

/// The arena after the half-edge `h` was made to end at the surface vertex
/// `to`: first its curve was put into `surface`, then its front vertex was
/// given `to` as its surface form, then its global form was inferred.
pub open spec fn front_connected(
    partials: PartialsView,
    h: HalfEdgeHandle,
    surface: SurfaceHandle,
    to: SurfaceVertexHandle,
) -> PartialsView {
    let curve = curve_of(partials, h);
    let with_curve = partials.set_curve(
        curve,
        PartialCurve { path: partials.curve(curve).path, surface },
    );
    let front = partials.half_edge(h).vertices[1];
    let with_front = with_curve.set_vertex(
        front,
        PartialVertex {
            position: with_curve.vertex(front).position,
            curve: with_curve.vertex(front).curve,
            surface_form: to,
        },
    );
    global_form_inferred(with_front, h)
}

/// Makes the half-edge `h` end at the surface vertex `to`, puts its curve into
/// `surface`, and infers its global form.
pub fn connect_front(
    partials: &mut Partials,
    h: HalfEdgeHandle,
    surface: SurfaceHandle,
    to: SurfaceVertexHandle,
)
    requires
        old(partials)@.wf(),
        old(partials)@.has_half_edge(h),
        old(partials)@.has_surface(surface),
        old(partials)@.has_surface_vertex(to),
    ensures
        final(partials)@.wf(),
        final(partials)@ == front_connected(old(partials)@, h, surface, to),
        final(partials)@.keeps_built(old(partials)@),
{
    let edge = partials.read_half_edge(h);
    let curve = partials.read_vertex(edge.vertices[0]).curve;
    let path = partials.read_curve(curve).path;
    partials.write_curve(curve, PartialCurve { path, surface });
    let front = partials.read_vertex(edge.vertices[1]);
    partials.write_vertex(
        edge.vertices[1],
        PartialVertex { position: front.position, curve: front.curve, surface_form: to },
    );
    infer_global_form(partials, h);
}

/// The half-edge `h` can be fit as a line segment: it is in the arena, and the
/// surface vertices at which it starts and ends can be connected.
pub open spec fn can_fit_line_segment(partials: PartialsView, h: HalfEdgeHandle) -> bool {
    &&& partials.has_half_edge(h)
    &&& can_connect(
        partials,
        partials.vertex(partials.half_edge(h).vertices[0]).surface_form,
        partials.vertex(partials.half_edge(h).vertices[1]).surface_form,
    )
}

/// Whether the half-edge `h` can be fit as a line segment.
pub fn check_can_fit_line_segment(partials: &Partials, h: HalfEdgeHandle) -> (r: bool)
    requires
        partials@.wf(),
    ensures
        r == can_fit_line_segment(partials@, h),
{
    if h.index < partials.half_edges.len() {
        let edge = partials.read_half_edge(h);
        let back = partials.read_vertex(edge.vertices[0]).surface_form;
        let front = partials.read_vertex(edge.vertices[1]).surface_form;
        check_can_connect(partials, back, front)
    } else {
        false
    }
}

/// The arena `after` is the arena `before` with the half-edge `h` fit as a
/// line segment. The path of its curve is the line from the position of the
/// surface vertex at which it starts to that of the one at which it ends; its
/// back vertex is at curve position 0 and its front vertex at curve position
/// 1; and its global form was inferred. The curve, the two vertices and the
/// half-edge keep what else they had, and hold no full object; nothing else
/// has changed.
pub open spec fn line_segment_fit(
    before: PartialsView,
    after: PartialsView,
    h: HalfEdgeHandle,
) -> bool {
    let edge = before.half_edge(h);
    let curve = curve_of(before, h);
    let v0 = edge.vertices[0];
    let v1 = edge.vertices[1];
    &&& after == global_form_inferred(
        before.set_curve(curve, after.curve(curve)).set_vertex(v0, after.vertex(v0)).set_vertex(
            v1,
            after.vertex(v1),
        ),
        h,
    )
    &&& after.curve(curve).surface == before.curve(curve).surface
    &&& after.curve(curve).path.is_some()
    &&& is_segment(
        after.curve(curve).path.unwrap(),
        before.surface_vertex(before.vertex(v0).surface_form).position.unwrap(),
        before.surface_vertex(before.vertex(v1).surface_form).position.unwrap(),
    )
    &&& after.vertex(v1).position.is_some()
    &&& after.vertex(v1).position.unwrap()@ == seq![scalar_of(1)]
    &&& after.vertex(v1).curve == before.vertex(v1).curve
    &&& after.vertex(v1).surface_form == before.vertex(v1).surface_form
    &&& v0 != v1 ==> {
        &&& after.vertex(v0).position.is_some()
        &&& after.vertex(v0).position.unwrap()@ == seq![scalar_of(0)]
        &&& after.vertex(v0).curve == before.vertex(v0).curve
        &&& after.vertex(v0).surface_form == before.vertex(v0).surface_form
    }
}

/// Fits the half-edge `h` as a line segment between the surface vertices at
/// which it starts and ends.
pub fn update_as_line_segment(partials: &mut Partials, h: HalfEdgeHandle)
    requires
        old(partials)@.wf(),
        can_fit_line_segment(old(partials)@, h),
    ensures
        final(partials)@.wf(),
        line_segment_fit(old(partials)@, final(partials)@, h),
        final(partials)@.keeps_built(old(partials)@),
{
    let edge = partials.read_half_edge(h);
    let back = partials.read_vertex(edge.vertices[0]);
    let front = partials.read_vertex(edge.vertices[1]);
    let a = partials.read_surface_vertex(back.surface_form).position.unwrap();
    let b = partials.read_surface_vertex(front.surface_form).position.unwrap();
    let (path, coords) = SurfacePath::line_from_points(&a, &b);
    let curve = back.curve;
    let surface = partials.read_curve(curve).surface;
    partials.write_curve(curve, PartialCurve { path: Some(path), surface });
    partials.write_vertex(
        edge.vertices[0],
        PartialVertex {
            position: Some(coords[0]),
            curve: back.curve,
            surface_form: back.surface_form,
        },
    );
    partials.write_vertex(
        edge.vertices[1],
        PartialVertex {
            position: Some(coords[1]),
            curve: front.curve,
            surface_form: front.surface_form,
        },
    );
    let ghost written = partials@;
    infer_global_form(partials, h);
    proof {
        let before = old(partials)@;
        let after = partials@;
        let v0 = edge.vertices[0];
        let v1 = edge.vertices[1];
        let expected = before.set_curve(curve, after.curve(curve)).set_vertex(
            v0,
            after.vertex(v0),
        ).set_vertex(v1, after.vertex(v1));
        assert(before.half_edges[h.index as int].partial.wf_in(before));
        assert(before.vertices[v0.index as int].partial.wf_in(before));
        assert(after.vertices == written.vertices);
        assert(after.curves == written.curves);
        assert(written.curves =~= expected.curves);
        assert(written.vertices =~= expected.vertices);
        assert(written == expected);
    }
}

/// Fits the half-edge `h` as a line segment where that can be done, and says
/// whether it was done; else the arena is left as it is.
pub fn try_update_as_line_segment(partials: &mut Partials, h: HalfEdgeHandle) -> (r: bool)
    requires
        old(partials)@.wf(),
    ensures
        r == can_fit_line_segment(old(partials)@, h),
        r ==> line_segment_fit(old(partials)@, final(partials)@, h),
        !r ==> final(partials)@ == old(partials)@,
        final(partials)@.wf(),
        final(partials)@.keeps_built(old(partials)@),
{
    if check_can_fit_line_segment(partials, h) {
        update_as_line_segment(partials, h);
        true
    } else {
        false
    }
}

/// Connecting the front of a half-edge changes the surface form of its front
/// vertex and nothing else about vertices: every half-edge joins the vertices
/// that it joined, and every other vertex has the surface form that it had.
pub proof fn lemma_front_connected(
    partials: PartialsView,
    h: HalfEdgeHandle,
    surface: SurfaceHandle,
    to: SurfaceVertexHandle,
)
    requires
        partials.wf(),
        partials.has_half_edge(h),
        partials.has_surface(surface),
        partials.has_surface_vertex(to),
    ensures
        ({
            let after = front_connected(partials, h, surface, to);
            &&& after.wf()
            &&& after.within(partials) && partials.within(after)
            &&& after.surface_vertices == partials.surface_vertices
            &&& after.global_vertices == partials.global_vertices
            &&& after.surfaces == partials.surfaces
            &&& forall|g: HalfEdgeHandle|
                partials.has_half_edge(g) ==> (#[trigger] after.half_edge(g)).vertices
                    == partials.half_edge(g).vertices
            &&& forall|v: VertexHandle|
                partials.has_vertex(v) && v != partials.half_edge(h).vertices[1] ==> (
                #[trigger] after.vertex(v)) == partials.vertex(v)
            &&& after.vertex(partials.half_edge(h).vertices[1]).surface_form == to
            &&& forall|c: CurveHandle|
                partials.has_curve(c) ==> (#[trigger] after.curve(c)).path == partials.curve(c).path
        }),
{
    let after = front_connected(partials, h, surface, to);
    assert(partials.half_edges[h.index as int].partial.wf_in(partials));
    let front = partials.half_edge(h).vertices[1];
    assert(partials.vertices[partials.half_edge(h).vertices[0].index as int].partial.wf_in(partials));
    assert(partials.vertices[front.index as int].partial.wf_in(partials));
    assert forall|v: VertexHandle| partials.has_vertex(v) && v != front implies (
    #[trigger] after.vertex(v)) == partials.vertex(v) by {
        assert(v.index != front.index);
    }
}

/// A line segment that the arena holds is still there, unchanged, after the
/// arena has grown.
pub proof fn lemma_segment_kept(
    before: PartialsView,
    after: PartialsView,
    cv: int,
    vx: int,
    he: int,
    surface: SurfaceHandle,
    back: SurfaceVertexHandle,
    front: SurfaceVertexHandle,
)
    requires
        segment_at(before, cv, vx, he, surface, back, front),
        before.prefix_of(after),
        0 <= cv < before.curves.len(),
        0 <= vx && vx + 1 < before.vertices.len(),
        0 <= he < before.half_edges.len(),
        before.has_surface_vertex(back),
        before.has_surface_vertex(front),
    ensures
        segment_at(after, cv, vx, he, surface, back, front),
{
    reveal(segment_at);
    assert(after.curves[cv] == before.curves[cv]);
    assert(after.vertices[vx] == before.vertices[vx]);
    assert(after.vertices[vx + 1] == before.vertices[vx + 1]);
    assert(after.half_edges[he] == before.half_edges[he]);
    assert(after.surface_vertices[back.index as int] == before.surface_vertices[back.index as int]);
    assert(after.surface_vertices[front.index as int]
        == before.surface_vertices[front.index as int]);
}

/// The half-edge of a line segment starts at its back and ends at its front.
pub proof fn lemma_segment_ends(
    after: PartialsView,
    cv: int,
    vx: int,
    he: int,
    surface: SurfaceHandle,
    back: SurfaceVertexHandle,
    front: SurfaceVertexHandle,
    h: HalfEdgeHandle,
)
    requires
        segment_at(after, cv, vx, he, surface, back, front),
        h.index == he,
        0 <= vx,
    ensures
        after.vertex(after.half_edge(h).vertices[0]).surface_form == back,
        after.vertex(after.half_edge(h).vertices[1]).surface_form == front,
{
    reveal(segment_at);
}

/// The arena holds a full circle around the origin of `surface` with the
/// given radius: at `gv` a global vertex without position; at `sv` the surface
/// vertex at which the circle starts and ends, which stands for it and lies
/// where evaluating the circle at 0 put it; at `cv`
/// the curve in `surface`, whose path is the circle; at `vx` the back vertex,
/// at curve position 0, and at `vx + 1` the front vertex, at the curve
/// position of a full turn, both with the surface vertex as their surface
/// form; and at `he` the half-edge between the two, whose global form holds
/// the global vertex twice. Nothing was built from any of them.
#[verifier::opaque]
pub open spec fn circle_at(
    after: PartialsView,
    gv: int,
    sv: int,
    cv: int,
    vx: int,
    he: int,
    surface: SurfaceHandle,
    radius: Scalar,
) -> bool {
    let global = after.global_vertices[gv];
    let form = after.surface_vertices[sv];
    let curve = after.curves[cv];
    let v0 = after.vertices[vx];
    let v1 = after.vertices[vx + 1];
    let edge = after.half_edges[he];
    &&& global.full.is_none()
    &&& global.partial.position.is_none()
    &&& form.full.is_none()
    &&& form.partial.position.is_some()
    &&& form.partial.surface == surface
    &&& form.partial.global_form.index == gv
    &&& curve.full.is_none()
    &&& curve.partial.surface == surface
    &&& curve.partial.path.is_some()
    &&& curve.partial.path.unwrap().is_circle_of(radius)
    &&& v0.full.is_none()
    &&& v0.partial.position.is_some()
    &&& v0.partial.position.unwrap()@ == seq![scalar_of(0)]
    &&& v0.partial.curve.index == cv
    &&& v0.partial.surface_form.index == sv
    &&& v1.full.is_none()
    &&& v1.partial.position.is_some()
    &&& is_full_turn(v1.partial.position.unwrap()@[0])
    &&& v1.partial.curve.index == cv
    &&& v1.partial.surface_form.index == sv
    &&& edge.full.is_none()
    &&& edge.partial.vertices[0].index == vx
    &&& edge.partial.vertices[1].index == vx + 1
    &&& edge.partial.global_form[0].index == gv
    &&& edge.partial.global_form[1].index == gv
}

/// What making a circle adds to the arena `before`: one global vertex, one
/// surface vertex, one curve, two vertices and one half-edge, which together
/// are a full circle; nothing else changes.
pub open spec fn circle_added(
    before: PartialsView,
    after: PartialsView,
    surface: SurfaceHandle,
    radius: Scalar,
) -> bool {
    &&& before.prefix_of(after)
    &&& after.surfaces.len() == before.surfaces.len()
    &&& after.global_vertices.len() == before.global_vertices.len() + 1
    &&& after.surface_vertices.len() == before.surface_vertices.len() + 1
    &&& after.curves.len() == before.curves.len() + 1
    &&& after.vertices.len() == before.vertices.len() + 2
    &&& after.half_edges.len() == before.half_edges.len() + 1
    &&& circle_at(
        after,
        before.global_vertices.len() as int,
        before.surface_vertices.len() as int,
        before.curves.len() as int,
        before.vertices.len() as int,
        before.half_edges.len() as int,
        surface,
        radius,
    )
}

/// Makes a half-edge that is a full circle around the origin of `surface`,
/// with the given radius. It starts and ends at one new surface vertex.
pub fn circle_from_radius(
    partials: &mut Partials,
    surface: SurfaceHandle,
    radius: Scalar,
) -> (h: HalfEdgeHandle)
    requires
        old(partials)@.wf(),
        old(partials)@.has_surface(surface),
        SurfacePath::is_radius(radius),
    ensures
        final(partials)@.wf(),
        circle_added(old(partials)@, final(partials)@, surface, radius),
        final(partials)@.keeps_built(old(partials)@),
        h.index == old(partials)@.half_edges.len(),
        final(partials)@.has_half_edge(h),
        crate::partial::cycle::front_of(final(partials)@, h) == crate::partial::cycle::back_of(
            final(partials)@,
            h,
        ),
{
    reveal(circle_at);
    let (path, start) = SurfacePath::circle_from_radius(radius).unwrap();
    let curve = partials.insert_curve(PartialCurve { path: Some(path), surface });
    let global_form = partials.insert_global_vertex(PartialGlobalVertex { position: None });
    let surface_form = partials.insert_surface_vertex(
        PartialSurfaceVertex { position: Some(start), surface, global_form },
    );
    let coords = [Point { coords: [scalar(0)] }, Point { coords: [full_turn()] }];
    assert(coords[0]@ =~= seq![scalar_of(0)]);
    let v0 = partials.insert_vertex(
        PartialVertex { position: Some(coords[0]), curve, surface_form },
    );
    let v1 = partials.insert_vertex(
        PartialVertex { position: Some(coords[1]), curve, surface_form },
    );
    partials.insert_half_edge(
        PartialHalfEdge { vertices: [v0, v1], global_form: [global_form, global_form] },
    )
}

} // verus!
