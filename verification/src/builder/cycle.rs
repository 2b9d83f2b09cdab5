//! Building cycles.

use vstd::prelude::*;
use crate::builder::half_edge::{
    can_connect, connect_front, curve_of, front_connected, lemma_front_connected,
    lemma_segment_ends, lemma_segment_kept, line_segment_between, segment_at,
};
use crate::math::{Line, Point};
use crate::partial::cycle::{
    all_present, back_of, closed, front_of, lemma_separate_at, next_in, separate, PartialCycle,
};
use crate::partial::edge::PartialHalfEdge;
use crate::partial::vertex::{PartialGlobalVertex, PartialSurfaceVertex};
use crate::partial::{
    fresh, lemma_prefix_grows, GlobalVertexHandle, HalfEdgeHandle, Partials, PartialsView,
    SurfaceHandle, SurfaceVertexHandle, VertexHandle,
};

verus! {

/// A sequence of points bounds a polygon if each point spans a line with the
/// next one, and the last one with the first. Fewer than two points bound
/// nothing, and are accepted as such.
pub open spec fn is_poly_chain(points: Seq<Point<2>>) -> bool {
    points.len() >= 2 ==> forall|j: int|
        0 <= j < points.len() ==> Line::<2>::spanned_by(
            #[trigger] points[j],
            points[next_in(j, points.len() as int)],
        )
}

/// The places `gv + j` and `sv + j` hold the global vertex and the surface
/// vertex of the `j`-th point of a polygon: a global vertex without position,
/// and a surface vertex at the point, in `surface`, that stands for it.
#[verifier::opaque]
pub open spec fn corner_at(
    after: PartialsView,
    gv: int,
    sv: int,
    surface: SurfaceHandle,
    point: Point<2>,
    j: int,
) -> bool {
    &&& after.global_vertices[gv + j] == fresh::<PartialGlobalVertex, crate::objects::GlobalVertexId>(
        PartialGlobalVertex { position: None },
    )
    &&& after.surface_vertices[sv + j] == fresh::<
        PartialSurfaceVertex,
        crate::objects::SurfaceVertexId,
    >(
        PartialSurfaceVertex {
            position: Some(point),
            surface,
            global_form: GlobalVertexHandle { index: (gv + j) as usize },
        },
    )
}

/// What `from_poly_chain` adds to an arena `before` for two or more points:
/// first a corner for each point, then for each point the line segment to the
/// next point, the last segment leading back to the first point.
pub open spec fn poly_chain_added(
    before: PartialsView,
    after: PartialsView,
    surface: SurfaceHandle,
    points: Seq<Point<2>>,
) -> bool {
    let n = points.len() as int;
    let gv = before.global_vertices.len() as int;
    let sv = before.surface_vertices.len() as int;
    let cv = before.curves.len() as int;
    let vx = before.vertices.len() as int;
    let he = before.half_edges.len() as int;
    &&& before.prefix_of(after)
    &&& after.surfaces.len() == before.surfaces.len()
    &&& after.global_vertices.len() == gv + n
    &&& after.surface_vertices.len() == sv + n
    &&& after.curves.len() == cv + n
    &&& after.vertices.len() == vx + 2 * n
    &&& after.half_edges.len() == he + n
    &&& corners_at(after, n, gv, sv, surface, points)
    &&& segments_at(after, n, n, sv, cv, vx, he, surface)
}

/// The arena holds the first `count` corners of a polygon, from the places
/// `gv` and `sv` on.
#[verifier::opaque]
pub open spec fn corners_at(
    after: PartialsView,
    count: int,
    gv: int,
    sv: int,
    surface: SurfaceHandle,
    points: Seq<Point<2>>,
) -> bool {
    forall|j: int| 0 <= j < count ==> #[trigger] corner_at(after, gv, sv, surface, points[j], j)
}

/// The arena holds the first `count` line segments of a polygon with `n`
/// corners: the segment `k` has its curve at `cv + k`, its vertices at
/// `vx + 2 * k`, and its half-edge at `he + k`, and leads from the corner `k`
/// to the next corner, the last one back to the first corner.
#[verifier::opaque]
pub open spec fn segments_at(
    after: PartialsView,
    count: int,
    n: int,
    sv: int,
    cv: int,
    vx: int,
    he: int,
    surface: SurfaceHandle,
) -> bool {
    forall|k: int|
        0 <= k < count ==> #[trigger] segment_at(
            after,
            cv + k,
            vx + 2 * k,
            he + k,
            surface,
            SurfaceVertexHandle { index: (sv + k) as usize },
            SurfaceVertexHandle { index: (sv + next_in(k, n)) as usize },
        )
}

/// The half-edges of a polygon with `n` corners that was made in an arena
/// with `he` half-edges: none for fewer than two corners, else the `n`
/// half-edges from the place `he` on.
pub open spec fn poly_chain_handles(he: nat, n: nat) -> Seq<HalfEdgeHandle> {
    if n < 2 {
        Seq::empty()
    } else {
        Seq::new(n, |j: int| HalfEdgeHandle { index: (he + j) as usize })
    }
}

/// Whether the points bound a polygon.
pub fn check_poly_chain(points: &Vec<Point<2>>) -> (r: bool)
    ensures
        r == is_poly_chain(points@),
{
    let n = points.len();
    if n < 2 {
        return true;
    }
    let mut j: usize = 0;
    while j < n
        invariant
            n == points@.len(),
            n >= 2,
            0 <= j <= n,
            forall|k: int|
                0 <= k < j ==> Line::<2>::spanned_by(
                    #[trigger] points@[k],
                    points@[next_in(k, n as int)],
                ),
        decreases n - j,
    {
        let next = if j + 1 == n {
            0
        } else {
            j + 1
        };
        if !Line::spans(&points[j], &points[next]) {
            assert(!Line::<2>::spanned_by(points@[j as int], points@[next_in(j as int, n as int)]));
            return false;
        }
        j = j + 1;
    }
    true
}

/// Puts the corners of a polygon into the arena: for each point a global
/// vertex and a surface vertex.
fn add_corners(surface: SurfaceHandle, points: &Vec<Point<2>>, partials: &mut Partials)
    requires
        old(partials)@.wf(),
        old(partials)@.has_surface(surface),
    ensures
        final(partials)@.wf(),
        final(partials)@.keeps_built(old(partials)@),
        old(partials)@.prefix_of(final(partials)@),
        final(partials)@.surfaces == old(partials)@.surfaces,
        final(partials)@.curves == old(partials)@.curves,
        final(partials)@.vertices == old(partials)@.vertices,
        final(partials)@.half_edges == old(partials)@.half_edges,
        final(partials)@.global_vertices.len() == old(partials)@.global_vertices.len() + points@.len(),
        final(partials)@.surface_vertices.len() == old(partials)@.surface_vertices.len()
            + points@.len(),
        corners_at(
            final(partials)@,
            points@.len() as int,
            old(partials)@.global_vertices.len() as int,
            old(partials)@.surface_vertices.len() as int,
            surface,
            points@,
        ),
{
    reveal(corner_at);
    let n = points.len();
    let ghost before = partials@;
    let ghost gv = before.global_vertices.len() as int;
    let ghost sv = before.surface_vertices.len() as int;
    let mut i: usize = 0;
    while i < n
        invariant
            n == points@.len(),
            0 <= i <= n,
            before.has_surface(surface),
            gv == before.global_vertices.len(),
            sv == before.surface_vertices.len(),
            partials@.wf(),
            partials@.keeps_built(before),
            before.prefix_of(partials@),
            partials@.surfaces == before.surfaces,
            partials@.curves == before.curves,
            partials@.vertices == before.vertices,
            partials@.half_edges == before.half_edges,
            partials@.global_vertices.len() == gv + i,
            partials@.surface_vertices.len() == sv + i,
            forall|k: int| 0 <= k < i ==> #[trigger] corner_at(partials@, gv, sv, surface, points@[k], k),
        decreases n - i,
    {
        let ghost prev = partials@;
        let global_form = partials.insert_global_vertex(PartialGlobalVertex { position: None });
        partials.insert_surface_vertex(
            PartialSurfaceVertex { position: Some(points[i]), surface, global_form },
        );
        assert forall|k: int| 0 <= k < i + 1 implies #[trigger] corner_at(
            partials@,
            gv,
            sv,
            surface,
            points@[k],
            k,
        ) by {
            reveal(corner_at);
            if k < i {
                assert(corner_at(prev, gv, sv, surface, points@[k], k));
            }
        }
        i = i + 1;
    }
    assert(corners_at(partials@, n as int, gv, sv, surface, points@)) by {
        reveal(corners_at);
    }
}

/// The surface vertex of each corner is in the arena and lies at the point
/// of the corner.
proof fn lemma_corner(
    after: PartialsView,
    n: int,
    gv: int,
    sv: int,
    surface: SurfaceHandle,
    points: Seq<Point<2>>,
    j: int,
)
    requires
        corners_at(after, n, gv, sv, surface, points),
        0 <= j < n,
        0 <= sv,
        sv + n <= usize::MAX,
    ensures
        after.surface_vertex(SurfaceVertexHandle { index: (sv + j) as usize }).position == Some(
            points[j],
        ),
{
    reveal(corners_at);
    reveal(corner_at);
    assert(corner_at(after, gv, sv, surface, points[j], j));
}

/// The corners that the arena holds are still there, unchanged, after the
/// arena has grown.
proof fn lemma_corners_kept(
    before: PartialsView,
    after: PartialsView,
    n: int,
    gv: int,
    sv: int,
    surface: SurfaceHandle,
    points: Seq<Point<2>>,
)
    requires
        corners_at(before, n, gv, sv, surface, points),
        before.prefix_of(after),
        0 <= gv && gv + n <= before.global_vertices.len(),
        0 <= sv && sv + n <= before.surface_vertices.len(),
    ensures
        corners_at(after, n, gv, sv, surface, points),
{
    reveal(corners_at);
    reveal(corner_at);
    assert forall|j: int| 0 <= j < n implies #[trigger] corner_at(
        after,
        gv,
        sv,
        surface,
        points[j],
        j,
    ) by {
        assert(corner_at(before, gv, sv, surface, points[j], j));
        assert(after.global_vertices[gv + j] == before.global_vertices[gv + j]);
        assert(after.surface_vertices[sv + j] == before.surface_vertices[sv + j]);
    }
}

/// The line segments that the arena holds, and one more that was added at the
/// end of the arena, are the line segments that the arena holds then.
proof fn lemma_segments_extended(
    before: PartialsView,
    after: PartialsView,
    count: int,
    n: int,
    sv: int,
    cv: int,
    vx: int,
    he: int,
    surface: SurfaceHandle,
)
    requires
        0 <= count < n,
        0 <= sv && 0 <= cv && 0 <= vx && 0 <= he,
        sv + n <= usize::MAX,
        segments_at(before, count, n, sv, cv, vx, he, surface),
        before.prefix_of(after),
        before.curves.len() == cv + count,
        before.vertices.len() == vx + 2 * count,
        before.half_edges.len() == he + count,
        before.surface_vertices.len() >= sv + n,
        segment_at(
            after,
            cv + count,
            vx + 2 * count,
            he + count,
            surface,
            SurfaceVertexHandle { index: (sv + count) as usize },
            SurfaceVertexHandle { index: (sv + next_in(count, n)) as usize },
        ),
    ensures
        segments_at(after, count + 1, n, sv, cv, vx, he, surface),
{
    reveal(segments_at);
    assert forall|k: int| 0 <= k < count + 1 implies #[trigger] segment_at(
        after,
        cv + k,
        vx + 2 * k,
        he + k,
        surface,
        SurfaceVertexHandle { index: (sv + k) as usize },
        SurfaceVertexHandle { index: (sv + next_in(k, n)) as usize },
    ) by {
        if k < count {
            lemma_segment_kept(
                before,
                after,
                cv + k,
                vx + 2 * k,
                he + k,
                surface,
                SurfaceVertexHandle { index: (sv + k) as usize },
                SurfaceVertexHandle { index: (sv + next_in(k, n)) as usize },
            );
        }
    }
}

/// The line segments of a polygon, each from one corner to the next and the
/// last one back to the first corner, form a closed chain.
proof fn lemma_poly_chain_closed(
    after: PartialsView,
    chain: Seq<HalfEdgeHandle>,
    n: int,
    sv: int,
    cv: int,
    vx: int,
    he: int,
    surface: SurfaceHandle,
)
    requires
        n >= 2,
        chain.len() == n,
        0 <= sv && 0 <= cv && 0 <= vx && 0 <= he,
        after.half_edges.len() == he + n,
        forall|k: int| 0 <= k < n ==> (#[trigger] chain[k]).index == he + k,
        segments_at(after, n, n, sv, cv, vx, he, surface),
    ensures
        closed(after, chain),
        all_present(after, chain),
{
    reveal(segments_at);
    assert forall|k: int| 0 <= k < chain.len() implies front_of(after, #[trigger] chain[k])
        == back_of(after, chain[next_in(k, chain.len() as int)]) by {
        let m = next_in(k, n);
        assert(segment_at(
            after,
            cv + k,
            vx + 2 * k,
            he + k,
            surface,
            SurfaceVertexHandle { index: (sv + k) as usize },
            SurfaceVertexHandle { index: (sv + next_in(k, n)) as usize },
        ));
        assert(segment_at(
            after,
            cv + m,
            vx + 2 * m,
            he + m,
            surface,
            SurfaceVertexHandle { index: (sv + m) as usize },
            SurfaceVertexHandle { index: (sv + next_in(m, n)) as usize },
        ));
        lemma_segment_ends(
            after,
            cv + k,
            vx + 2 * k,
            he + k,
            surface,
            SurfaceVertexHandle { index: (sv + k) as usize },
            SurfaceVertexHandle { index: (sv + next_in(k, n)) as usize },
            chain[k],
        );
        lemma_segment_ends(
            after,
            cv + m,
            vx + 2 * m,
            he + m,
            surface,
            SurfaceVertexHandle { index: (sv + m) as usize },
            SurfaceVertexHandle { index: (sv + next_in(m, n)) as usize },
            chain[m],
        );
    }
    assert forall|k: int| 0 <= k < chain.len() implies after.has_half_edge(
        #[trigger] chain[k],
    ) by {}
}

/// The line segments of a polygon do not share their vertices.
proof fn lemma_poly_chain_separate(
    after: PartialsView,
    chain: Seq<HalfEdgeHandle>,
    n: int,
    sv: int,
    cv: int,
    vx: int,
    he: int,
    surface: SurfaceHandle,
)
    requires
        n >= 2,
        chain.len() == n,
        0 <= sv && 0 <= cv && 0 <= vx && 0 <= he,
        after.half_edges.len() == he + n,
        after.vertices.len() == vx + 2 * n,
        forall|k: int| 0 <= k < n ==> (#[trigger] chain[k]).index == he + k,
        segments_at(after, n, n, sv, cv, vx, he, surface),
    ensures
        separate(after, chain),
{
    reveal(segments_at);
    reveal(segment_at);
    assert forall|k: int| 0 <= k < n implies {
        &&& after.half_edge(#[trigger] chain[k]).vertices[0].index == vx + 2 * k
        &&& after.half_edge(chain[k]).vertices[1].index == vx + 2 * k + 1
    } by {
        assert(segment_at(
            after,
            cv + k,
            vx + 2 * k,
            he + k,
            surface,
            SurfaceVertexHandle { index: (sv + k) as usize },
            SurfaceVertexHandle { index: (sv + next_in(k, n)) as usize },
        ));
    }
    reveal(separate);
}

/// The arena after a half-edge was added to a cycle with the half-edges
/// `chain`. A default half-edge is made and put at the end of the chain. Then
/// the last half-edge of the old chain is made to end where the new one
/// starts, and the new one is made to end where the first one starts; both
/// curves are put into the surface of the first half-edge's curve. For an
/// empty chain the new half-edge is both the first and the last.
pub open spec fn half_edge_added(partials: PartialsView, chain: Seq<HalfEdgeHandle>) -> PartialsView {
    let new = HalfEdgeHandle { index: partials.half_edges.len() as usize };
    let started = PartialHalfEdge::default_in(partials).with_half_edge(
        PartialHalfEdge::default_of(partials),
    );
    let first = if chain.len() == 0 {
        new
    } else {
        chain[0]
    };
    let last = if chain.len() == 0 {
        new
    } else {
        chain[chain.len() - 1]
    };
    let shared_surface = started.curve(curve_of(started, first)).surface;
    let joined = front_connected(started, last, shared_surface, back_of(started, new));
    front_connected(joined, new, shared_surface, back_of(joined, first))
}

/// Builder API for [`PartialCycle`]
pub trait CycleBuilder: Sized {
    /// The half-edges of the cycle, in order.
    spec fn chain(&self) -> Seq<HalfEdgeHandle>;

    /// Create a cycle as a polygonal chain from the provided points
    ///
    /// Two or more points give one half-edge per point, from that point to
    /// the next, the last one leading back to the first point. Fewer points
    /// give a cycle without half-edges and leave the arena as it is.
    fn from_poly_chain(surface: SurfaceHandle, points: &Vec<Point<2>>, partials: &mut Partials) -> (cycle:
        Self)
        requires
            old(partials)@.wf(),
            old(partials)@.has_surface(surface),
            is_poly_chain(points@),
        ensures
            final(partials)@.wf(),
            cycle.chain() == poly_chain_handles(old(partials)@.half_edges.len(), points@.len()),
            points@.len() < 2 ==> final(partials)@ == old(partials)@,
            points@.len() >= 2 ==> poly_chain_added(
                old(partials)@,
                final(partials)@,
                surface,
                points@,
            ),
            old(partials)@.prefix_of(final(partials)@),
            final(partials)@.keeps_built(old(partials)@),
            all_present(final(partials)@, cycle.chain()),
            closed(final(partials)@, cycle.chain()),
            separate(final(partials)@, cycle.chain()),
    ;

    /// Create a cycle as a polygonal chain from the provided points, if they
    /// bound a polygon; else the arena is left as it is.
    fn try_from_poly_chain(
        surface: SurfaceHandle,
        points: &Vec<Point<2>>,
        partials: &mut Partials,
    ) -> (r: Option<Self>)
        requires
            old(partials)@.wf(),
            old(partials)@.has_surface(surface),
        ensures
            r.is_some() == is_poly_chain(points@),
            r.is_none() ==> final(partials)@ == old(partials)@,
            r.is_some() ==> {
                let cycle = r.unwrap();
                &&& cycle.chain() == poly_chain_handles(
                    old(partials)@.half_edges.len(),
                    points@.len(),
                )
                &&& points@.len() < 2 ==> final(partials)@ == old(partials)@
                &&& points@.len() >= 2 ==> poly_chain_added(
                    old(partials)@,
                    final(partials)@,
                    surface,
                    points@,
                )
                &&& all_present(final(partials)@, cycle.chain())
                &&& closed(final(partials)@, cycle.chain())
                &&& separate(final(partials)@, cycle.chain())
            },
            final(partials)@.wf(),
            final(partials)@.keeps_built(old(partials)@),
            old(partials)@.prefix_of(final(partials)@),
    ;

    /// Add a new half-edge to the cycle
    ///
    /// Creates a half-edge and adds it to the cycle. The new half-edge is
    /// connected to the front vertex of the last half-edge, and the back
    /// vertex of the first edge, making sure the half-edges actually form a
    /// cycle.
    ///
    /// If this is the first half-edge being added, it is connected to itself,
    /// meaning its front and back vertices are the same.
    fn add_half_edge(&mut self, partials: &mut Partials) -> (h: HalfEdgeHandle)
        requires
            old(partials)@.wf(),
            all_present(old(partials)@, old(self).chain()),
        ensures
            h.index == old(partials)@.half_edges.len(),
            final(self).chain() == old(self).chain().push(h),
            final(partials)@ == half_edge_added(old(partials)@, old(self).chain()),
            final(partials)@.wf(),
            final(partials)@.keeps_built(old(partials)@),
            all_present(final(partials)@, final(self).chain()),
            closed(old(partials)@, old(self).chain()) && separate(
                old(partials)@,
                old(self).chain(),
            ) ==> closed(final(partials)@, final(self).chain()) && separate(
                final(partials)@,
                final(self).chain(),
            ),
    ;
}

impl CycleBuilder for PartialCycle {
    open spec fn chain(&self) -> Seq<HalfEdgeHandle> {
        self.half_edges@
    }

    fn from_poly_chain(surface: SurfaceHandle, points: &Vec<Point<2>>, partials: &mut Partials) -> (cycle:
        PartialCycle) {
        let n = points.len();
        let mut cycle = PartialCycle::default();
        if n < 2 {
            assert(cycle.half_edges@ =~= poly_chain_handles(partials@.half_edges.len(), n as nat));
            assert(separate(partials@, cycle.half_edges@)) by {
                reveal(separate);
            }
            return cycle;
        }
        let ghost before = partials@;
        let ghost gv = partials.global_vertices@.len() as int;
        let sv = partials.surface_vertices.len();
        add_corners(surface, points, partials);
        let ghost middle = partials@;
        let reach = partials.surface_vertices.len();
        let ghost cv = partials.curves@.len() as int;
        let ghost vx = partials.vertices@.len() as int;
        let ghost he = partials.half_edges@.len() as int;
        assert(segments_at(middle, 0, n as int, sv as int, cv, vx, he, surface)) by {
            reveal(segments_at);
        }
        let mut j: usize = 0;
        while j < n
            invariant
                n == points@.len(),
                n >= 2,
                0 <= j <= n,
                is_poly_chain(points@),
                middle.has_surface(surface),
                reach == sv + n,
                middle.surface_vertices.len() == sv + n,
                corners_at(middle, n as int, gv, sv as int, surface, points@),
                partials@.wf(),
                partials@.keeps_built(middle),
                middle.prefix_of(partials@),
                partials@.surfaces == middle.surfaces,
                partials@.global_vertices == middle.global_vertices,
                partials@.surface_vertices == middle.surface_vertices,
                partials@.curves.len() == cv + j,
                partials@.vertices.len() == vx + 2 * j,
                partials@.half_edges.len() == he + j,
                cv >= 0 && vx >= 0 && he >= 0,
                cycle.half_edges@.len() == j,
                forall|k: int| 0 <= k < j ==> (#[trigger] cycle.half_edges@[k]).index == he + k,
                segments_at(partials@, j as int, n as int, sv as int, cv, vx, he, surface),
            decreases n - j,
        {
            let ghost prev = partials@;
            let next = if j + 1 == n {
                0
            } else {
                j + 1
            };
            let back = SurfaceVertexHandle { index: sv + j };
            let front = SurfaceVertexHandle { index: sv + next };
            proof {
                lemma_corner(middle, n as int, gv, sv as int, surface, points@, j as int);
                lemma_corner(middle, n as int, gv, sv as int, surface, points@, next as int);
                assert(Line::<2>::spanned_by(
                    points@[j as int],
                    points@[next_in(j as int, n as int)],
                ));
                assert(can_connect(prev, back, front));
            }
            let half_edge = line_segment_between(partials, surface, back, front);
            cycle.half_edges.push(half_edge);
            proof {
                lemma_prefix_grows(middle, prev, partials@);
                lemma_segments_extended(
                    prev,
                    partials@,
                    j as int,
                    n as int,
                    sv as int,
                    cv,
                    vx,
                    he,
                    surface,
                );
            }
            j = j + 1;
        }
        proof {
            let after = partials@;
            let chain = cycle.half_edges@;
            lemma_prefix_grows(before, middle, after);
            lemma_corners_kept(middle, after, n as int, gv, sv as int, surface, points@);
            assert(poly_chain_added(before, after, surface, points@));
            lemma_poly_chain_closed(after, chain, n as int, sv as int, cv, vx, he, surface);
            lemma_poly_chain_separate(after, chain, n as int, sv as int, cv, vx, he, surface);
            assert(chain =~= poly_chain_handles(before.half_edges.len(), n as nat));
        }
        cycle
    }

    fn try_from_poly_chain(
        surface: SurfaceHandle,
        points: &Vec<Point<2>>,
        partials: &mut Partials,
    ) -> (r: Option<PartialCycle>) {
        if check_poly_chain(points) {
            Some(Self::from_poly_chain(surface, points, partials))
        } else {
            None
        }
    }

    fn add_half_edge(&mut self, partials: &mut Partials) -> (h: HalfEdgeHandle) {
        let new = splice_half_edge(&mut self.half_edges, partials);
        proof {
            let before = old(partials)@;
            let chain = old(self).half_edges@;
            if closed(before, chain) && separate(before, chain) {
                lemma_add_half_edge_keeps_closed(before, chain);
            }
        }
        new
    }
}

/// Makes a default half-edge, splices it in at the end of the chain, and
/// returns it.
fn splice_half_edge(half_edges: &mut Vec<HalfEdgeHandle>, partials: &mut Partials) -> (h:
    HalfEdgeHandle)
    requires
        old(partials)@.wf(),
        all_present(old(partials)@, old(half_edges)@),
    ensures
        h.index == old(partials)@.half_edges.len(),
        final(half_edges)@ == old(half_edges)@.push(h),
        final(partials)@ == half_edge_added(old(partials)@, old(half_edges)@),
        final(partials)@.wf(),
        final(partials)@.keeps_built(old(partials)@),
        all_present(final(partials)@, final(half_edges)@),
        old(partials)@.half_edges.len() < usize::MAX,
        old(partials)@.vertices.len() + 1 < usize::MAX,
        old(partials)@.surface_vertices.len() + 1 < usize::MAX,
        old(partials)@.global_vertices.len() + 1 < usize::MAX,
{
    let new = partials.new_half_edge();
    let places = partials.half_edges.len();
    let vertices = partials.vertices.len();
    let forms = partials.surface_vertices.len();
    let globals = partials.global_vertices.len();
    let n = half_edges.len();
    let first = if n == 0 {
        new
    } else {
        half_edges[0]
    };
    let last = if n == 0 {
        new
    } else {
        half_edges[n - 1]
    };
    let first_curve = partials.read_vertex(partials.read_half_edge(first).vertices[0]).curve;
    let shared_surface = partials.read_curve(first_curve).surface;
    let new_back = partials.read_vertex(partials.read_half_edge(new).vertices[0]).surface_form;
    connect_front(partials, last, shared_surface, new_back);
    let first_back = partials.read_vertex(
        partials.read_half_edge(first).vertices[0],
    ).surface_form;
    connect_front(partials, new, shared_surface, first_back);
    half_edges.push(new);
    new
}

/// The half-edges of a chain and their vertices lie in the arena.
proof fn lemma_chain_in_arena(before: PartialsView, chain: Seq<HalfEdgeHandle>, i: int)
    requires
        before.wf(),
        all_present(before, chain),
        0 <= i < chain.len(),
    ensures
        chain[i].index < before.half_edges.len(),
        before.has_vertex(before.half_edge(chain[i]).vertices[0]),
        before.has_vertex(before.half_edge(chain[i]).vertices[1]),
{
    assert(before.has_half_edge(chain[i]));
    assert(before.half_edges[chain[i].index as int].partial.wf_in(before));
}

/// A closed chain of separate half-edges stays closed when a new half-edge
/// between the new vertices `v0` and `v1` is spliced in at its end: the last
/// half-edge is made to end where the new one starts, and the new one ends
/// where the first one starts.
proof fn lemma_spliced_closed(
    before: PartialsView,
    after: PartialsView,
    chain: Seq<HalfEdgeHandle>,
    new: HalfEdgeHandle,
    v0: VertexHandle,
    v1: VertexHandle,
)
    requires
        before.wf(),
        all_present(before, chain),
        separate(before, chain),
        closed(before, chain),
        new.index >= before.half_edges.len(),
        v0.index >= before.vertices.len(),
        v1.index >= before.vertices.len(),
        v0 != v1,
        after.half_edge(new).vertices[0] == v0,
        after.half_edge(new).vertices[1] == v1,
        forall|i: int|
            0 <= i < chain.len() ==> after.half_edge(#[trigger] chain[i]).vertices
                == before.half_edge(chain[i]).vertices,
        forall|v: VertexHandle|
            before.has_vertex(v) && (chain.len() == 0 || v != before.half_edge(
                chain[chain.len() - 1],
            ).vertices[1]) ==> (#[trigger] after.vertex(v)).surface_form == before.vertex(
                v,
            ).surface_form,
        chain.len() > 0 ==> after.vertex(
            before.half_edge(chain[chain.len() - 1]).vertices[1],
        ).surface_form == after.vertex(v0).surface_form,
        chain.len() > 0 ==> after.vertex(v1).surface_form == before.vertex(
            before.half_edge(chain[0]).vertices[0],
        ).surface_form,
        chain.len() == 0 ==> after.vertex(v1).surface_form == after.vertex(v0).surface_form,
    ensures
        closed(after, chain.push(new)),
{
    let n = chain.len() as int;
    let longer = chain.push(new);
    assert forall|i: int| 0 <= i < longer.len() implies front_of(after, #[trigger] longer[i])
        == back_of(after, longer[next_in(i, longer.len() as int)]) by {
        let m = next_in(i, n + 1);
        if i == n {
            assert(longer[i] == new);
            if n > 0 {
                assert(longer[0] == chain[0]);
                lemma_chain_in_arena(before, chain, 0);
                lemma_separate_at(before, chain, 0, n - 1);
            }
        } else {
            assert(longer[i] == chain[i]);
            lemma_chain_in_arena(before, chain, i);
            if i == n - 1 {
                assert(longer[m] == new);
            } else {
                assert(longer[m] == chain[i + 1]);
                assert(next_in(i, n) == i + 1);
                assert(front_of(before, chain[i]) == back_of(before, chain[next_in(i, n)]));
                lemma_chain_in_arena(before, chain, i + 1);
                lemma_separate_at(before, chain, i, n - 1);
                lemma_separate_at(before, chain, i + 1, n - 1);
                assert(after.half_edge(chain[i]).vertices == before.half_edge(chain[i]).vertices);
                assert(after.half_edge(chain[i + 1]).vertices == before.half_edge(
                    chain[i + 1],
                ).vertices);
            }
        }
    }
}

/// The half-edges of a chain of separate half-edges are separate still when a
/// new half-edge between the new vertices `v0` and `v1` is added at its end.
proof fn lemma_spliced_separate(
    before: PartialsView,
    after: PartialsView,
    chain: Seq<HalfEdgeHandle>,
    new: HalfEdgeHandle,
    v0: VertexHandle,
    v1: VertexHandle,
)
    requires
        before.wf(),
        all_present(before, chain),
        separate(before, chain),
        new.index >= before.half_edges.len(),
        v0.index >= before.vertices.len(),
        v1.index >= before.vertices.len(),
        v0 != v1,
        after.half_edge(new).vertices[0] == v0,
        after.half_edge(new).vertices[1] == v1,
        forall|i: int|
            0 <= i < chain.len() ==> after.half_edge(#[trigger] chain[i]).vertices
                == before.half_edge(chain[i]).vertices,
    ensures
        separate(after, chain.push(new)),
{
    let n = chain.len() as int;
    let longer = chain.push(new);
    assert forall|i: int, j: int| 0 <= i < j < longer.len() implies #[trigger] longer[i]
        != #[trigger] longer[j] by {
        assert(longer[i] == chain[i]);
        lemma_chain_in_arena(before, chain, i);
        if j < n {
            assert(longer[j] == chain[j]);
            lemma_separate_at(before, chain, i, j);
        }
    }
    assert forall|i: int, j: int| 0 <= i < longer.len() && 0 <= j < longer.len() implies after.half_edge(
        #[trigger] longer[i],
    ).vertices[0] != after.half_edge(#[trigger] longer[j]).vertices[1] by {
        if i < n {
            assert(longer[i] == chain[i]);
            lemma_chain_in_arena(before, chain, i);
        }
        if j < n {
            assert(longer[j] == chain[j]);
            lemma_chain_in_arena(before, chain, j);
        }
        if i < n && j < n {
            lemma_separate_at(before, chain, i, j);
        }
    }
    assert forall|i: int, j: int| 0 <= i < j < longer.len() implies {
        &&& after.half_edge(#[trigger] longer[i]).vertices[0] != after.half_edge(
            #[trigger] longer[j],
        ).vertices[0]
        &&& after.half_edge(longer[i]).vertices[1] != after.half_edge(longer[j]).vertices[1]
    } by {
        assert(longer[i] == chain[i]);
        lemma_chain_in_arena(before, chain, i);
        if j < n {
            assert(longer[j] == chain[j]);
            lemma_separate_at(before, chain, i, j);
        }
    }
    reveal(separate);
}

/// A closed cycle stays closed when a half-edge is added to it, provided that
/// its half-edges do not share their vertices; and the half-edges of the new
/// cycle do not share theirs.
pub proof fn lemma_add_half_edge_keeps_closed(partials: PartialsView, chain: Seq<HalfEdgeHandle>)
    requires
        partials.wf(),
        all_present(partials, chain),
        separate(partials, chain),
        closed(partials, chain),
        partials.half_edges.len() < usize::MAX,
        partials.vertices.len() + 1 < usize::MAX,
        partials.surface_vertices.len() + 1 < usize::MAX,
        partials.global_vertices.len() + 1 < usize::MAX,
    ensures
        closed(
            half_edge_added(partials, chain),
            chain.push(HalfEdgeHandle { index: partials.half_edges.len() as usize }),
        ),
        separate(
            half_edge_added(partials, chain),
            chain.push(HalfEdgeHandle { index: partials.half_edges.len() as usize }),
        ),
{
    let n = chain.len() as int;
    let new = HalfEdgeHandle { index: partials.half_edges.len() as usize };
    let started = PartialHalfEdge::default_in(partials).with_half_edge(
        PartialHalfEdge::default_of(partials),
    );
    let first = if chain.len() == 0 {
        new
    } else {
        chain[0]
    };
    let last = if chain.len() == 0 {
        new
    } else {
        chain[chain.len() - 1]
    };
    let shared_surface = started.curve(curve_of(started, first)).surface;
    let joined = front_connected(started, last, shared_surface, back_of(started, new));
    let after = front_connected(joined, new, shared_surface, back_of(joined, first));
    let v0 = VertexHandle { index: partials.vertices.len() as usize };
    let v1 = VertexHandle { index: (partials.vertices.len() + 1) as usize };
    assert(after == half_edge_added(partials, chain));
    assert(started.wf());
    assert(partials.prefix_of(started));
    assert(started.half_edge(new).vertices[0] == v0);
    assert(started.half_edge(new).vertices[1] == v1);
    assert(started.has_half_edge(new));
    if n > 0 {
        assert(partials.has_half_edge(chain[0]));
        assert(partials.has_half_edge(chain[n - 1]));
        assert(partials.half_edges[chain[0].index as int].partial.wf_in(partials));
    }
    assert(started.has_half_edge(first) && started.has_half_edge(last));
    assert(started.half_edges[first.index as int].partial.wf_in(started));
    assert(started.half_edges[new.index as int].partial.wf_in(started));
    let first_back = started.half_edge(first).vertices[0];
    assert(started.vertices[first_back.index as int].partial.wf_in(started));
    assert(started.vertices[v0.index as int].partial.wf_in(started));
    assert(started.curves[curve_of(started, first).index as int].partial.wf_in(started));
    lemma_front_connected(started, last, shared_surface, back_of(started, new));
    assert(joined.half_edge(first).vertices == started.half_edge(first).vertices);
    assert(joined.vertices[first_back.index as int].partial.wf_in(joined));
    lemma_front_connected(joined, new, shared_surface, back_of(joined, first));
    assert forall|i: int| 0 <= i < chain.len() implies after.half_edge(
        #[trigger] chain[i],
    ).vertices == partials.half_edge(chain[i]).vertices by {
        assert(partials.has_half_edge(chain[i]));
        assert(started.half_edge(chain[i]) == partials.half_edge(chain[i]));
        assert(joined.half_edge(chain[i]).vertices == started.half_edge(chain[i]).vertices);
    }
    assert(joined.half_edge(new).vertices == started.half_edge(new).vertices);
    assert forall|v: VertexHandle|
        partials.has_vertex(v) && (chain.len() == 0 || v != partials.half_edge(
            chain[chain.len() - 1],
        ).vertices[1]) implies (#[trigger] after.vertex(v)).surface_form == partials.vertex(
        v,
    ).surface_form by {
        assert(started.vertex(v) == partials.vertex(v));
        assert(v != v1);
        assert(joined.vertex(v) == started.vertex(v));
        assert(after.vertex(v) == joined.vertex(v));
    }
    if n > 0 {
        let f_last = partials.half_edge(chain[n - 1]).vertices[1];
        assert(partials.half_edges[chain[n - 1].index as int].partial.wf_in(partials));
        assert(started.half_edge(last).vertices[1] == f_last);
        assert(f_last != v1 && f_last != v0);
        assert(after.vertex(f_last) == joined.vertex(f_last));
        assert(after.vertex(v0) == joined.vertex(v0));
        assert(joined.vertex(v0) == started.vertex(v0));
        assert(first_back == partials.half_edge(chain[0]).vertices[0]);
        lemma_separate_at(partials, chain, 0, n - 1);
        assert(joined.vertex(first_back) == started.vertex(first_back));
    } else {
        assert(after.vertex(v0) == joined.vertex(v0));
        assert(joined.vertex(v0) == started.vertex(v0));
    }
    lemma_spliced_closed(partials, after, chain, new, v0, v1);
    lemma_spliced_separate(partials, after, chain, new, v0, v1);
}

/// The first half-edge that is added to a cycle is connected to itself: it
/// ends at the surface vertex at which it starts.
pub proof fn lemma_first_half_edge_is_connected_to_itself(partials: PartialsView)
    requires
        partials.wf(),
        partials.half_edges.len() < usize::MAX,
        partials.vertices.len() + 1 < usize::MAX,
        partials.surface_vertices.len() + 1 < usize::MAX,
        partials.global_vertices.len() + 1 < usize::MAX,
    ensures
        ({
            let h = HalfEdgeHandle { index: partials.half_edges.len() as usize };
            let after = half_edge_added(partials, Seq::empty());
            front_of(after, h) == back_of(after, h)
        }),
{
    let h = HalfEdgeHandle { index: partials.half_edges.len() as usize };
    let chain = Seq::<HalfEdgeHandle>::empty();
    let after = half_edge_added(partials, chain);
    reveal(separate);
    lemma_add_half_edge_keeps_closed(partials, chain);
    assert(chain.push(h)[0] == h);
    assert(front_of(after, chain.push(h)[0]) == back_of(after, chain.push(h)[next_in(0, 1)]));
}

/// The first two half-edges that are added to a cycle form a closed cycle of
/// two: each ends at the surface vertex at which the other starts.
pub proof fn lemma_two_half_edges_form_a_cycle(partials: PartialsView)
    requires
        partials.wf(),
        partials.half_edges.len() + 1 < usize::MAX,
        partials.vertices.len() + 3 < usize::MAX,
        partials.surface_vertices.len() + 3 < usize::MAX,
        partials.global_vertices.len() + 3 < usize::MAX,
    ensures
        ({
            let h1 = HalfEdgeHandle { index: partials.half_edges.len() as usize };
            let h2 = HalfEdgeHandle { index: (partials.half_edges.len() + 1) as usize };
            let once = half_edge_added(partials, Seq::empty());
            let twice = half_edge_added(once, seq![h1]);
            &&& front_of(twice, h1) == back_of(twice, h2)
            &&& front_of(twice, h2) == back_of(twice, h1)
        }),
{
    let h1 = HalfEdgeHandle { index: partials.half_edges.len() as usize };
    let h2 = HalfEdgeHandle { index: (partials.half_edges.len() + 1) as usize };
    let none = Seq::<HalfEdgeHandle>::empty();
    assert(separate(partials, none)) by {
        reveal(separate);
    }
    lemma_add_half_edge_keeps_closed(partials, none);
    let once = half_edge_added(partials, none);
    let one = none.push(h1);
    assert(one =~= seq![h1]);
    assert(once.half_edges.len() == partials.half_edges.len() + 1);
    assert(once.vertices.len() == partials.vertices.len() + 2);
    assert(once.surface_vertices.len() == partials.surface_vertices.len() + 2);
    assert(once.global_vertices.len() == partials.global_vertices.len() + 2);
    assert(once.wf());
    assert(all_present(once, one));
    lemma_add_half_edge_keeps_closed(once, one);
    let twice = half_edge_added(once, one);
    let two = one.push(h2);
    assert(two[0] == h1 && two[1] == h2);
    assert(front_of(twice, two[0]) == back_of(twice, two[next_in(0, 2)]));
    assert(front_of(twice, two[1]) == back_of(twice, two[next_in(1, 2)]));
}

} // verus!
